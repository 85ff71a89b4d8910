use spindle_macros::compile::{checked_output_string, output_string, Error};
use spindle_macros::error::command_output_result;
use spindle_macros::primitives::_Primitive;
use spindle_macros::case::LowerSnakeIdent;
use spindle_macros::range::{RangeAttributes, RangeFn, RangeFnError, ONLY_I32};
use spindle_macros::syntax::{
    FnArgModel, ItemFnModel, PatTypeModel, PathArgsModel, PathSegmentModel, ReturnTypeModel,
    SignatureModel, TypeModel, TypePathModel,
};
use spindle_macros::text::decimal;

fn path_type(name: &str) -> TypeModel {
    TypeModel::Path(TypePathModel {
        qself: false,
        leading_colon: false,
        segments: vec![PathSegmentModel { ident: name.to_string(), arguments: PathArgsModel::Plain }],
    })
}

/// `fn square(i: i32) -> f32 { (i * i) as f32 }`
fn square() -> ItemFnModel {
    ItemFnModel {
        attrs: 0,
        vis: String::new(),
        sig: SignatureModel {
            constness: false,
            asyncness: false,
            unsafety: false,
            abi: false,
            ident: "square".to_string(),
            generic_params: 0,
            where_clause: false,
            inputs: vec![FnArgModel::Typed(PatTypeModel {
                attrs: 0,
                pat: "i".to_string(),
                ty: path_type("i32"),
            })],
            trailing_comma: false,
            variadic: false,
            output: ReturnTypeModel::Type(path_type("f32")),
        },
        block: "{ (i * i) as f32 }".to_string(),
    }
}

#[test]
fn command_message_joins_both_streams() {
    let r = command_output_result(b"warning: x  \n", b"\n  built", "exit status: 0", true);
    assert_eq!(r, Ok("warning: x\nbuilt".to_string()));
    let r = command_output_result(b"error: y", b"", "exit status: 101", false);
    assert_eq!(r, Err("error: y".to_string()));
    let r = command_output_result(b"", b"done\n", "exit status: 0", true);
    assert_eq!(r, Ok("done\n".to_string()));
    let r = command_output_result(b"", b"", "exit status: 1", false);
    assert_eq!(r, Err("exit status: 1".to_string()));
    // invalid UTF-8 is replaced, not dropped
    let r = command_output_result(&[0xff], b"", "exit status: 1", false);
    assert_eq!(r, Err("\u{fffd}".to_string()));
}

#[test]
fn output_string_of_streams() {
    assert_eq!(output_string(b"err", b"out"), "err\nout");
    assert_eq!(output_string(b"err", b""), "err");
    assert_eq!(output_string(b"", b"out"), "out");
    assert_eq!(checked_output_string(b"", b""), None);
    assert_eq!(checked_output_string(b" e ", b""), Some(" e ".to_string()));
}

#[test]
fn io_errors_convert() {
    let e: Error = std::io::Error::new(std::io::ErrorKind::NotFound, "gone").into();
    match e {
        Error::Io(inner) => assert_eq!(inner.kind(), std::io::ErrorKind::NotFound),
    }
}

#[test]
fn range_fn_accepts_i32_index() {
    let f = RangeFn::parse(square()).unwrap();
    assert_eq!(f.0.sig.ident, "square");
    assert_eq!(RangeAttributes::parse(true), Ok(RangeAttributes));
    assert_eq!(RangeAttributes::parse(false), Err(RangeFnError::Attributes));
}

#[test]
fn range_fn_rules() {
    let mut item = square();
    item.sig.inputs[0] = FnArgModel::Typed(PatTypeModel { attrs: 0, pat: "i".to_string(), ty: path_type("u32") });
    let e = RangeFn::parse(item).unwrap_err();
    assert_eq!(e, RangeFnError::OnlyI32);
    assert_eq!(e.message(), ONLY_I32);

    let mut item = square();
    item.sig.inputs[0] = FnArgModel::Typed(PatTypeModel { attrs: 0, pat: "i".to_string(), ty: path_type("f32") });
    assert_eq!(RangeFn::parse(item).unwrap_err(), RangeFnError::OnlyIntegers);

    let mut item = square();
    item.sig.inputs.clear();
    assert_eq!(RangeFn::parse(item).unwrap_err(), RangeFnError::ExactlyOneInput);

    let mut item = square();
    item.sig.inputs = vec![FnArgModel::Receiver];
    assert_eq!(RangeFn::parse(item).unwrap_err(), RangeFnError::NotAMethod);

    let mut item = square();
    item.sig.output = ReturnTypeModel::Default;
    assert_eq!(RangeFn::parse(item).unwrap_err(), RangeFnError::NoReturn);

    let mut item = square();
    item.sig.output = ReturnTypeModel::Type(path_type("bool"));
    assert_eq!(RangeFn::parse(item).unwrap_err(), RangeFnError::OnlyPrimitiveReturns);

    let mut item = square();
    item.sig.output = ReturnTypeModel::Type(TypeModel::Tuple);
    assert_eq!(RangeFn::parse(item).unwrap_err(), RangeFnError::OnlyPrimitiveReturns);

    let mut item = square();
    item.attrs = 2;
    item.sig.generic_params = 1;
    assert_eq!(RangeFn::parse(item).unwrap_err(), RangeFnError::Attributes);

    let mut item = square();
    item.sig.generic_params = 1;
    assert_eq!(RangeFn::parse(item).unwrap_err(), RangeFnError::Generics);

    let mut item = square();
    item.sig.where_clause = true;
    assert_eq!(RangeFn::parse(item).unwrap_err(), RangeFnError::WhereClause);
}

#[test]
fn primitive_integers() {
    let p = _Primitive { ident: LowerSnakeIdent("u128".to_string()) };
    assert!(p.is_integer());
    let q = _Primitive { ident: LowerSnakeIdent("f32".to_string()) };
    assert!(!q.is_integer());
    assert!(p == _Primitive { ident: LowerSnakeIdent("u128".to_string()) });
    assert!(p != q);
}

#[test]
fn decimal_formatting() {
    assert_eq!(decimal(0), "0");
    assert_eq!(decimal(7), "7");
    assert_eq!(decimal(10), "10");
    assert_eq!(decimal(1203), "1203");
}

#[test]
fn command_message_trims_unicode_white_space() {
    let r = command_output_result("e\u{3000}\u{2009}".as_bytes(), "\u{a0}\to".as_bytes(), "exit status: 0", true);
    assert_eq!(r, Ok("e\no".to_string()));
}
