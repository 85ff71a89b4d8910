use spindle_macros::case::LowerSnakeIdent;
use spindle_macros::dev_item_fn::{
    DevArgType, DevError, DevErrorKind, DevItemFn, DevReturnType, DevType, Spot,
};
use spindle_macros::init::{Attrs, DevInitFn};
use spindle_macros::syntax::{
    FnArgModel, ItemFnModel, PatTypeModel, PathArgsModel, PathSegmentModel, ReturnTypeModel,
    SignatureModel, TypeModel, TypePathModel,
};
use spindle_macros::tag::CrateTag;
use spindle_macros::tokens::{ParseError, ParseErrorKind, Tok};

fn path_type(name: &str) -> TypeModel {
    TypeModel::Path(TypePathModel {
        qself: false,
        leading_colon: false,
        segments: vec![PathSegmentModel { ident: name.to_string(), arguments: PathArgsModel::Plain }],
    })
}

/// `fn square_over_two(x: u64) -> f32 { ((x * x) / 2) as f32 }`
fn square_over_two() -> ItemFnModel {
    ItemFnModel {
        attrs: 0,
        vis: String::new(),
        sig: SignatureModel {
            constness: false,
            asyncness: false,
            unsafety: false,
            abi: false,
            ident: "square_over_two".to_string(),
            generic_params: 0,
            where_clause: false,
            inputs: vec![FnArgModel::Typed(PatTypeModel {
                attrs: 0,
                pat: "x".to_string(),
                ty: path_type("u64"),
            })],
            trailing_comma: false,
            variadic: false,
            output: ReturnTypeModel::Type(path_type("f32")),
        },
        block: "{ ((x * x) / 2) as f32 }".to_string(),
    }
}

fn tag(name: &str) -> CrateTag {
    CrateTag(LowerSnakeIdent(name.to_string()))
}

fn tag_tokens(names: &[&str], trailing: bool) -> Vec<Tok> {
    let mut toks = Vec::new();
    for (i, name) in names.iter().enumerate() {
        if i > 0 {
            toks.push(Tok::Punct(','));
        }
        toks.push(Tok::Punct('#'));
        toks.push(Tok::Ident(name.to_string()));
    }
    if trailing {
        toks.push(Tok::Punct(','));
    }
    toks
}

#[test]
fn example_02_init() {
    // test the attr parsing
    let attrs: Attrs = Attrs::parse(&tag_tokens(&["example_02_test"], false)).unwrap();
    let expected_tag = tag("example_02_test");
    let expected_attrs: Attrs = Attrs { tags: vec![expected_tag] };
    assert_eq!(attrs, expected_attrs);

    // test the function parsing
    let item = square_over_two();
    assert!(DevItemFn::is_handled(&item));
    let init_fn: DevInitFn = DevInitFn::try_from(DevItemFn::try_from(item).unwrap()).unwrap();
    assert_eq!(init_fn.vis, "");
    assert_eq!(init_fn.block, "{ ((x * x) / 2) as f32 }");
    assert_eq!(init_fn.ident(), "square_over_two");
    assert_eq!(init_fn.sig.input.pat, "x");
    assert_eq!(init_fn.db_item_ident(), "square_over_two");

    let union_idents: Vec<String> = vec!["U".to_string()];
    let init_kernel = init_fn.kernel(&union_idents).unwrap();
    assert_eq!(init_kernel.kernel_ident, "square_over_two_init_kernel");
    assert_eq!(init_kernel.method_ident, "square_over_two_init");
    assert_eq!(init_kernel.union_ident, "U");
    assert!(matches!(
        &init_kernel.input_type,
        DevArgType::DeviceType(DevType::SizedInteger(name)) if name == "u64"
    ));

    let device_method = init_fn.device_method(&union_idents).unwrap();
    assert_eq!(device_method.method_ident, "square_over_two_init");
    assert_eq!(device_method.init_ident, "square_over_two");

    let launch_trait = init_fn.launch_trait();
    assert_eq!(launch_trait.mod_ident, "__square_over_two");
    assert_eq!(launch_trait.trait_ident, "__SquareOverTwo");
    assert_eq!(launch_trait.method_ident, "square_over_two");

    let target_dir = "target";
    let launch_impl = init_fn.launch_impl("example_02_test", target_dir, &union_idents);
    let ptx_path = format!(
        "{target_dir}/spindle/map/example_02_test/target/nvptx64-nvidia-cuda/target/release/kernel.ptx"
    );
    assert_eq!(launch_impl.ptx_path, ptx_path);
    assert_eq!(launch_impl.mod_ident, "__square_over_two");
    assert_eq!(launch_impl.trait_ident, "__SquareOverTwo");
    assert_eq!(launch_impl.method_ident, "square_over_two");
    assert_eq!(launch_impl.union_ident, "U");
    assert!(matches!(&launch_impl.output_type, DevType::Float(name) if name == "f32"));
    assert!(matches!(init_fn.output(), DevReturnType::Type(DevType::Float(_))));
}

#[test]
fn init_needs_exactly_one_union() {
    let item = square_over_two();
    let init_fn = DevInitFn::try_from(DevItemFn::try_from(item).unwrap()).unwrap();
    let none: Vec<String> = vec![];
    let two: Vec<String> = vec!["U".to_string(), "V".to_string()];
    let expected = DevError { at: Spot::Ident, kind: DevErrorKind::ExpectedOneUnion };
    assert_eq!(init_fn.kernel(&none).unwrap_err(), expected);
    assert_eq!(init_fn.kernel(&two).unwrap_err(), expected);
    assert_eq!(init_fn.device_method(&two).unwrap_err(), expected);
    assert_eq!(expected.kind.message(), "expected exactly one union ident");
}

#[test]
fn init_needs_exactly_one_input() {
    let mut item = square_over_two();
    item.sig.inputs.clear();
    let err = DevInitFn::try_from(DevItemFn::try_from(item).unwrap()).unwrap_err();
    assert_eq!(err, DevError { at: Spot::Ident, kind: DevErrorKind::ExpectedOneArgument });

    let mut item = square_over_two();
    let second = item.sig.inputs[0].clone();
    item.sig.inputs.push(second);
    let err = DevInitFn::try_from(DevItemFn::try_from(item).unwrap()).unwrap_err();
    assert_eq!(err, DevError { at: Spot::SecondArg, kind: DevErrorKind::ExpectedOneArgument });
    assert_eq!(err.kind.message(), "expected exactly one argument");
}

#[test]
fn init_attrs_read_listed_tags() {
    let names = ["fizz", "buzz", "foo_bar"];
    for trailing in [false, true] {
        let attrs = Attrs::parse(&tag_tokens(&names, trailing)).unwrap();
        let got: Vec<String> = attrs.tags.iter().map(|t| t.to_string()).collect();
        assert_eq!(got, vec!["fizz", "buzz", "foo_bar"]);
    }
}

#[test]
fn init_attrs_errors() {
    // no tag at all
    assert_eq!(
        Attrs::parse(&vec![]).unwrap_err(),
        ParseError { at: 0, kind: ParseErrorKind::Punct('#') }
    );
    // a tag that is not lower snake case
    let toks = vec![Tok::Punct('#'), Tok::Ident("FooBar".to_string())];
    assert_eq!(Attrs::parse(&toks).unwrap_err(), ParseError { at: 1, kind: ParseErrorKind::LowerSnake });
    // a keyword is not a tag
    let toks = vec![Tok::Punct('#'), Tok::Ident("fn".to_string())];
    assert_eq!(
        Attrs::parse(&toks).unwrap_err(),
        ParseError { at: 1, kind: ParseErrorKind::KeywordAsIdent }
    );
    // two tags without a comma between them
    let toks = vec![
        Tok::Punct('#'),
        Tok::Ident("a".to_string()),
        Tok::Punct('#'),
        Tok::Ident("b".to_string()),
    ];
    assert_eq!(Attrs::parse(&toks).unwrap_err(), ParseError { at: 2, kind: ParseErrorKind::Punct(',') });
}
