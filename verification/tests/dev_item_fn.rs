use spindle_macros::dev_item_fn::{
    DevArgType, DevError, DevErrorKind, DevItemFn, DevReturnType, DevType, Spot,
};
use spindle_macros::syntax::{
    FnArgModel, ItemFnModel, PatTypeModel, PathArgsModel, PathSegmentModel, ReturnTypeModel,
    SignatureModel, TypeModel, TypePathModel,
};

fn path_type(segments: &[&str]) -> TypeModel {
    TypeModel::Path(TypePathModel {
        qself: false,
        leading_colon: false,
        segments: segments
            .iter()
            .map(|s| PathSegmentModel { ident: s.to_string(), arguments: PathArgsModel::Plain })
            .collect(),
    })
}

fn typed(pat: &str, ty: TypeModel) -> FnArgModel {
    FnArgModel::Typed(PatTypeModel { attrs: 0, pat: pat.to_string(), ty })
}

/// `fn foo(x: i32) -> f64 { x as f64 }`
fn foo() -> ItemFnModel {
    ItemFnModel {
        attrs: 0,
        vis: String::new(),
        sig: SignatureModel {
            constness: false,
            asyncness: false,
            unsafety: false,
            abi: false,
            ident: "foo".to_string(),
            generic_params: 0,
            where_clause: false,
            inputs: vec![typed("x", path_type(&["i32"]))],
            trailing_comma: false,
            variadic: false,
            output: ReturnTypeModel::Type(path_type(&["f64"])),
        },
        block: "{ x as f64 }".to_string(),
    }
}

fn try_dev(item: ItemFnModel) -> Result<DevItemFn, DevError> {
    assert!(DevItemFn::is_handled(&item));
    DevItemFn::try_from(item)
}

#[test]
fn device_item_fn_parse_prohibits_attributes() {
    let mut item_fn = foo();
    item_fn.attrs = 1;
    let device_item_fn = try_dev(item_fn);
    assert!(device_item_fn.is_err());
}

#[test]
fn device_item_fn_parse_prohibits_const() {
    let mut item_fn = foo();
    item_fn.sig.constness = true;
    let device_item_fn = try_dev(item_fn);
    assert!(device_item_fn.is_err());
}

#[test]
fn device_item_fn_parse_prohibits_async() {
    let mut item_fn = foo();
    item_fn.sig.asyncness = true;
    let device_item_fn = try_dev(item_fn);
    assert!(device_item_fn.is_err());
}

#[test]
fn device_item_fn_parse_prohibits_unsafe() {
    let mut item_fn = foo();
    item_fn.sig.unsafety = true;
    let device_item_fn = try_dev(item_fn);
    assert!(device_item_fn.is_err());
}

#[test]
fn device_item_fn_parse_prohibits_abi() {
    let mut item_fn = foo();
    item_fn.sig.abi = true;
    let device_item_fn = try_dev(item_fn);
    assert!(device_item_fn.is_err());
}

#[test]
fn device_item_fn_parse_prohibits_variadic() {
    let mut item_fn = foo();
    item_fn.sig.variadic = true;
    let device_item_fn = try_dev(item_fn);
    assert!(device_item_fn.is_err());
}

#[test]
fn test_device_item_fn_parse_prohibits_attributes() {
    let mut item_fn = foo();
    item_fn.attrs = 1;
    let err = try_dev(item_fn).unwrap_err();
    assert_eq!(err, DevError { at: Spot::Attrs, kind: DevErrorKind::Attributes });
    assert_eq!(err.kind.message(), "Device functions attributes are not supported.");
}

#[test]
fn test_device_item_fn_parse_prohibits_const() {
    let mut item_fn = foo();
    item_fn.sig.constness = true;
    let err = try_dev(item_fn).unwrap_err();
    assert_eq!(err, DevError { at: Spot::Constness, kind: DevErrorKind::Const });
    assert_eq!(err.kind.message(), "Device functions cannot be const.");
}

#[test]
fn test_device_item_fn_parse_prohibits_async() {
    let mut item_fn = foo();
    item_fn.sig.asyncness = true;
    let err = try_dev(item_fn).unwrap_err();
    assert_eq!(err, DevError { at: Spot::Asyncness, kind: DevErrorKind::Async });
    assert_eq!(err.kind.message(), "Device functions cannot be async.");
}

#[test]
fn test_device_item_fn_parse_prohibits_unsafe() {
    let mut item_fn = foo();
    item_fn.sig.unsafety = true;
    let err = try_dev(item_fn).unwrap_err();
    assert_eq!(err, DevError { at: Spot::Unsafety, kind: DevErrorKind::Unsafe });
    assert_eq!(err.kind.message(), "Device functions cannot be unsafe.");
}

#[test]
fn test_device_item_fn_parse_prohibits_abi() {
    let mut item_fn = foo();
    item_fn.sig.abi = true;
    let err = try_dev(item_fn).unwrap_err();
    assert_eq!(err, DevError { at: Spot::Abi, kind: DevErrorKind::Abi });
    assert_eq!(err.kind.message(), "Device functions cannot have an abi.");
}

#[test]
fn test_device_item_fn_parse_prohibits_variadic() {
    let mut item_fn = foo();
    item_fn.sig.variadic = true;
    let err = try_dev(item_fn).unwrap_err();
    assert_eq!(err, DevError { at: Spot::Variadic, kind: DevErrorKind::Variadic });
    assert_eq!(err.kind.message(), "Device functions cannot be variadic.");
}

#[test]
fn device_item_fn_parse_univariate_pure_fn() {
    let item_fn = foo();
    let device_item_fn: DevItemFn = try_dev(item_fn).unwrap();
    assert_eq!(device_item_fn.sig.ident.0, "foo");
}

#[test]
fn parse_univariate_pure_dev_item_fn_and_compare_with_db_item_fn() {
    let device_item_fn: DevItemFn = try_dev(foo()).unwrap();
    // the function is kept as written: `fn foo(x: i32) -> f64 { x as f64 }`
    assert_eq!(device_item_fn.vis, "");
    assert_eq!(device_item_fn.block, "{ x as f64 }");
    assert_eq!(device_item_fn.sig.ident.0, "foo");
    assert_eq!(device_item_fn.sig.inputs.len(), 1);
    assert_eq!(device_item_fn.sig.inputs[0].pat, "x");
    assert!(matches!(
        &device_item_fn.sig.inputs[0].ty,
        DevArgType::DeviceType(DevType::SizedInteger(name)) if name == "i32"
    ));
    assert!(matches!(
        &device_item_fn.sig.output,
        DevReturnType::Type(DevType::Float(name)) if name == "f64"
    ));
    // it is stored under its name
    assert_eq!(device_item_fn.db_item_ident(), "foo");
}

#[test]
fn device_fn_name_rules() {
    let mut item = foo();
    item.sig.ident = "_foo".to_string();
    assert_eq!(try_dev(item).unwrap_err().kind, DevErrorKind::LeadingUnderscore);
    let mut item = foo();
    item.sig.ident = "foo_".to_string();
    assert_eq!(try_dev(item).unwrap_err().kind, DevErrorKind::TrailingUnderscore);
    let mut item = foo();
    item.sig.ident = "fooBar".to_string();
    assert_eq!(try_dev(item).unwrap_err(), DevError { at: Spot::Ident, kind: DevErrorKind::NotSnakeCase });
}

#[test]
fn device_fn_generics_and_where_clause() {
    let mut item = foo();
    item.sig.generic_params = 1;
    assert_eq!(try_dev(item).unwrap_err().kind, DevErrorKind::GenericParams);
    let mut item = foo();
    item.sig.where_clause = true;
    assert_eq!(try_dev(item).unwrap_err().kind, DevErrorKind::WhereClause);
}

#[test]
fn device_fn_argument_rules() {
    let mut item = foo();
    item.sig.inputs = vec![FnArgModel::Receiver];
    assert_eq!(try_dev(item).unwrap_err(), DevError { at: Spot::Arg { arg: 0 }, kind: DevErrorKind::Receiver });

    let mut item = foo();
    item.sig.inputs = vec![typed("x", path_type(&["i32"])), typed("y", path_type(&["String"]))];
    assert_eq!(
        try_dev(item).unwrap_err(),
        DevError { at: Spot::ArgSegment { arg: 1, segment: 0 }, kind: DevErrorKind::NotDeviceType }
    );

    let mut item = foo();
    item.sig.inputs = vec![typed("x", path_type(&["spindle", "zst", "Any"]))];
    let f = try_dev(item).unwrap();
    assert!(matches!(f.sig.inputs[0].ty, DevArgType::SpindleAnyFullPath));

    let mut item = foo();
    item.sig.inputs = vec![typed("x", path_type(&["std", "zst", "Any"]))];
    assert_eq!(try_dev(item).unwrap_err().kind, DevErrorKind::NotSpindleAnyPath);

    let mut item = foo();
    item.sig.inputs = vec![typed("x", path_type(&["a", "b"]))];
    assert_eq!(try_dev(item).unwrap_err().kind, DevErrorKind::UnsupportedArgType);

    let mut item = foo();
    item.sig.inputs = vec![typed(
        "x",
        TypeModel::Path(TypePathModel {
            qself: false,
            leading_colon: false,
            segments: vec![PathSegmentModel {
                ident: "Vec".to_string(),
                arguments: PathArgsModel::AngleBracketed { args: 1 },
            }],
        }),
    )];
    assert_eq!(try_dev(item).unwrap_err().kind, DevErrorKind::AngleBracketedArgs);
}

#[test]
fn device_fn_return_rules() {
    let mut item = foo();
    item.sig.output = ReturnTypeModel::Type(path_type(&["std", "f64"]));
    assert_eq!(try_dev(item).unwrap_err().kind, DevErrorKind::ReturnMultiSegment);
    let mut item = foo();
    item.sig.output = ReturnTypeModel::Default;
    let f = try_dev(item).unwrap();
    assert!(matches!(f.sig.output, DevReturnType::Default));
}

#[test]
fn forms_the_rules_do_not_handle() {
    let mut item = foo();
    item.sig.inputs = vec![typed("x", TypeModel::Reference)];
    assert!(!DevItemFn::is_handled(&item));
    let mut item = foo();
    item.sig.output = ReturnTypeModel::Type(TypeModel::Tuple);
    assert!(!DevItemFn::is_handled(&item));
    // an earlier rejection wins over a form that is not handled
    let mut item = foo();
    item.sig.constness = true;
    item.sig.output = ReturnTypeModel::Type(TypeModel::Tuple);
    assert!(DevItemFn::is_handled(&item));
}
