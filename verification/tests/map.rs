use spindle_macros::case::UpperCamelIdent;
use spindle_macros::dev_item_fn::{DevError, DevErrorKind, DevItemFn, Spot};
use spindle_macros::map::{MapAttrs, MapFn};
use spindle_macros::map_fn::{DevMapFn, MapAttrs as MapFnAttrs};
use spindle_macros::regulate::{
    EXPECTED_ONE_INPUT_PRIMITIVE, EXPECTED_RETURN_IDENT, UNEXPECTED_ATTRIBUTES, UNEXPECTED_SELF,
};
use spindle_macros::syntax::{
    FnArgModel, ItemFnModel, PatTypeModel, PathArgsModel, PathSegmentModel, ReturnTypeModel,
    SignatureModel, TypeModel, TypePathModel,
};
use spindle_macros::tokens::{ParseError, ParseErrorKind, Tok};

fn path_type(segments: &[&str]) -> TypeModel {
    TypeModel::Path(TypePathModel {
        qself: false,
        leading_colon: false,
        segments: segments
            .iter()
            .map(|s| PathSegmentModel { ident: s.to_string(), arguments: PathArgsModel::Plain })
            .collect(),
    })
}

fn typed(pat: &str, ty: TypeModel) -> FnArgModel {
    FnArgModel::Typed(PatTypeModel { attrs: 0, pat: pat.to_string(), ty })
}

/// `fn foo(x: i32) -> f64 { x as f64 }`
fn foo() -> ItemFnModel {
    ItemFnModel {
        attrs: 0,
        vis: String::new(),
        sig: SignatureModel {
            constness: false,
            asyncness: false,
            unsafety: false,
            abi: false,
            ident: "foo".to_string(),
            generic_params: 0,
            where_clause: false,
            inputs: vec![typed("x", path_type(&["i32"]))],
            trailing_comma: false,
            variadic: false,
            output: ReturnTypeModel::Type(path_type(&["f64"])),
        },
        block: "{ x as f64 }".to_string(),
    }
}

fn tag_tokens(names: &[&str], trailing: bool) -> Vec<Tok> {
    let mut toks = Vec::new();
    for (i, name) in names.iter().enumerate() {
        if i > 0 {
            toks.push(Tok::Punct(','));
        }
        toks.push(Tok::Punct('#'));
        toks.push(Tok::Ident(name.to_string()));
    }
    if trailing {
        toks.push(Tok::Punct(','));
    }
    toks
}

#[test]
fn emit_tokens_from_new_map() {
    let map: MapFn = MapFn::parse(foo()).unwrap();
    assert_eq!(map.in_outs.len(), 1);
    assert_eq!(map.in_outs[0].input.as_ref().unwrap().ident.0, "i32");
    assert_eq!(map.in_outs[0].output.as_ref().unwrap().ident.0, "f64");
    // the declaration is the function as written
    assert_eq!(map.item_fn.sig.ident, "foo");
    assert_eq!(map.item_fn.block, "{ x as f64 }");

    let map_trait = map.user_crate_trait("foo_uuid");
    assert_eq!(map_trait.mod_ident, "__foo");
    assert_eq!(map_trait.trait_ident, "__Foo");
    assert_eq!(map_trait.method_ident, "foo");
    assert_eq!(map_trait.kernel_name, "foo_kernel");
    assert_eq!(map_trait.uuid, "foo_uuid");

    let u = UpperCamelIdent("U".to_string());
    let crate_method = map.ptx_crate_method(&u);
    assert_eq!(crate_method.union_ident, "U");
    assert_eq!(crate_method.method_ident, "foo");

    let crate_kernel = map.ptx_crate_kernel(&u);
    assert_eq!(crate_kernel.kernel_ident, "foo_kernel");
    assert_eq!(crate_kernel.union_ident, "U");
}

#[test]
fn map_fn_rules() {
    let mut item = foo();
    item.attrs = 1;
    assert_eq!(MapFn::parse(item).unwrap_err(), UNEXPECTED_ATTRIBUTES);
    let mut item = foo();
    item.sig.inputs = vec![FnArgModel::Receiver];
    assert_eq!(MapFn::parse(item).unwrap_err(), UNEXPECTED_SELF);
    let mut item = foo();
    item.sig.output = ReturnTypeModel::Default;
    assert_eq!(MapFn::parse(item).unwrap_err(), EXPECTED_RETURN_IDENT);
    let mut item = foo();
    item.sig.inputs = vec![typed("x", path_type(&["char"]))];
    assert_eq!(MapFn::parse(item).unwrap_err(), EXPECTED_ONE_INPUT_PRIMITIVE);
}

#[test]
fn plain_map_attrs_are_empty() {
    assert!(MapAttrs::parse(&vec![]).unwrap()._tags.is_empty());
    assert_eq!(MapAttrs::parse(&tag_tokens(&["a"], false)).unwrap_err(), UNEXPECTED_ATTRIBUTES);
}

#[test]
fn map_attrs_read_listed_tags() {
    let attrs = MapFnAttrs::parse(&tag_tokens(&["fizz", "buzz"], false)).unwrap();
    let got: Vec<String> = attrs.tags.iter().map(|t| t.to_string()).collect();
    assert_eq!(got, vec!["fizz", "buzz"]);
    assert!(MapFnAttrs::parse(&vec![]).unwrap().tags.is_empty());
    // a trailing comma is refused: a further tag is expected at the end
    let toks = tag_tokens(&["fizz", "buzz"], true);
    assert_eq!(
        MapFnAttrs::parse(&toks).unwrap_err(),
        ParseError { at: toks.len(), kind: ParseErrorKind::Punct('#') }
    );
}

#[test]
fn dev_map_fn_needs_one_device_input() {
    let f = DevMapFn::try_from(DevItemFn::try_from(foo()).unwrap()).unwrap();
    assert_eq!(f.ident(), "foo");
    assert_eq!(f.db_item_ident(), "foo");

    let mut item = foo();
    item.sig.inputs.clear();
    let err = DevMapFn::try_from(DevItemFn::try_from(item).unwrap()).unwrap_err();
    assert_eq!(err, DevError { at: Spot::Output, kind: DevErrorKind::ExpectedAnInput });

    let mut item = foo();
    item.sig.inputs.push(typed("y", path_type(&["i32"])));
    let err = DevMapFn::try_from(DevItemFn::try_from(item).unwrap()).unwrap_err();
    assert_eq!(err, DevError { at: Spot::SecondArg, kind: DevErrorKind::ExpectedOnlyOneInput });

    let mut item = foo();
    item.sig.inputs = vec![typed("x", path_type(&["Any"]))];
    let err = DevMapFn::try_from(DevItemFn::try_from(item).unwrap()).unwrap_err();
    assert_eq!(err.kind, DevErrorKind::InputIsAny);

    let mut item = foo();
    item.sig.inputs = vec![typed("x", path_type(&["spindle", "zst", "Any"]))];
    let err = DevMapFn::try_from(DevItemFn::try_from(item).unwrap()).unwrap_err();
    assert_eq!(err.kind, DevErrorKind::InputIsAnyPath);
}
