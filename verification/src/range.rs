//! Range functions: plain functions of one `i32` index that return a
//! primitive number, each lifted to a kernel that fills a slice.
use vstd::prelude::*;
use crate::syntax::{FnArgModel, ItemFnModel, ReturnTypeModel, TypeModel, TypePathModel};
use crate::text::str_eq;

verus! {

pub const NO_ATTRIBUTES: &'static str = "attributes are not yet supported";
pub const NO_GENERICS: &'static str = "generic functions are not yet supported";
pub const NOT_A_METHOD: &'static str = "range functions are methods";
pub const NO_WHERE_CLAUSE: &'static str = "where clauses are not supported";
pub const EXACTLY_ONE_INPUT: &'static str = "range functions have exactly one integer input";
pub const ONLY_INTEGERS: &'static str = "range functions take integer types (isize, usize, i32, u32, etc.)";
pub const NO_RETURN: &'static str = "range functions have a return type";
pub const ONLY_PRIMITIVE_RETURNS: &'static str = "range functions currently return primitive number types (i32, usize, f32, etc.)";
pub const ONLY_I32: &'static str = "range functions currently only admit i32";

/// Why a function cannot be a range function.
#[derive(Debug, Clone, Copy, PartialEq, Eq, Structural)]
pub enum RangeFnError {
    /// The function, or its argument, carries attributes.
    Attributes,
    Generics,
    WhereClause,
    /// It has no input, or more than one.
    ExactlyOneInput,
    /// Its input is `self`.
    NotAMethod,
    /// Its input is not of an integer type.
    OnlyIntegers,
    /// Its input is of an integer type other than `i32`.
    OnlyI32,
    NoReturn,
    /// It returns something other than a primitive number type.
    OnlyPrimitiveReturns,
}

impl RangeFnError {
    /// The message reported for the error.
    pub open spec fn spec_message(self) -> &'static str {
        match self {
            RangeFnError::Attributes => NO_ATTRIBUTES,
            RangeFnError::Generics => NO_GENERICS,
            RangeFnError::WhereClause => NO_WHERE_CLAUSE,
            RangeFnError::ExactlyOneInput => EXACTLY_ONE_INPUT,
            RangeFnError::NotAMethod => NOT_A_METHOD,
            RangeFnError::OnlyIntegers => ONLY_INTEGERS,
            RangeFnError::OnlyI32 => ONLY_I32,
            RangeFnError::NoReturn => NO_RETURN,
            RangeFnError::OnlyPrimitiveReturns => ONLY_PRIMITIVE_RETURNS,
        }
    }

    /// The message reported for the error.
    pub fn message(&self) -> (m: &'static str)
        ensures
            m == self.spec_message(),
    {
        match self {
            RangeFnError::Attributes => NO_ATTRIBUTES,
            RangeFnError::Generics => NO_GENERICS,
            RangeFnError::WhereClause => NO_WHERE_CLAUSE,
            RangeFnError::ExactlyOneInput => EXACTLY_ONE_INPUT,
            RangeFnError::NotAMethod => NOT_A_METHOD,
            RangeFnError::OnlyIntegers => ONLY_INTEGERS,
            RangeFnError::OnlyI32 => ONLY_I32,
            RangeFnError::NoReturn => NO_RETURN,
            RangeFnError::OnlyPrimitiveReturns => ONLY_PRIMITIVE_RETURNS,
        }
    }
}

/// The attributes of the `range` macro: there may be none.
#[derive(Debug, Clone, Copy, PartialEq, Eq, Structural)]
pub struct RangeAttributes;

impl RangeAttributes {
    /// Accepts the attribute input exactly when it is empty.
    pub fn parse(is_empty: bool) -> (r: Result<RangeAttributes, RangeFnError>)
        ensures
            r is Ok <==> is_empty,
            r matches Err(e) ==> e == RangeFnError::Attributes,
    {
        if is_empty {
            Ok(RangeAttributes)
        } else {
            Err(RangeFnError::Attributes)
        }
    }
}

/// A function accepted as a range function.
#[derive(Debug, Clone)]
pub struct RangeFn(pub ItemFnModel);

/// The integer types a range function's input may be written with.
pub open spec fn is_range_int(s: Seq<char>) -> bool {
    ||| s == "isize"@ ||| s == "usize"@ ||| s == "i8"@ ||| s == "u8"@ ||| s == "i16"@
    ||| s == "u16"@ ||| s == "i32"@ ||| s == "u32"@ ||| s == "i64"@ ||| s == "u64"@
}

/// The number types a range function may return.
pub open spec fn is_range_output(s: Seq<char>) -> bool {
    ||| s == "f32"@ ||| s == "f64"@ ||| is_range_int(s)
}

/// The name a type path consists of, when it has no qualified self type,
/// exactly one segment, and no arguments on it (empty angle brackets count
/// as none).
pub open spec fn single_segment(p: TypePathModel) -> Option<Seq<char>> {
    if !p.qself && p.segments@.len() == 1 && p.segments@[0].arguments.spec_is_empty() {
        Some(p.segments@[0].ident@)
    } else {
        None
    }
}

/// The checks on a range function's input type, in order.
pub open spec fn range_input_check(ty: TypeModel) -> Result<(), RangeFnError> {
    match ty {
        TypeModel::Path(p) => match single_segment(p) {
            None => Err(RangeFnError::OnlyIntegers),
            Some(name) => if !is_range_int(name) {
                Err(RangeFnError::OnlyIntegers)
            } else if name != "i32"@ {
                Err(RangeFnError::OnlyI32)
            } else {
                Ok(())
            },
        },
        _ => Err(RangeFnError::OnlyIntegers),
    }
}

/// The checks on a range function's return type, in order.
pub open spec fn range_output_check(output: ReturnTypeModel) -> Result<(), RangeFnError> {
    match output {
        ReturnTypeModel::Default => Err(RangeFnError::NoReturn),
        ReturnTypeModel::Type(TypeModel::Path(p)) => match single_segment(p) {
            Some(name) => if is_range_output(name) {
                Ok(())
            } else {
                Err(RangeFnError::OnlyPrimitiveReturns)
            },
            None => Err(RangeFnError::OnlyPrimitiveReturns),
        },
        ReturnTypeModel::Type(_) => Err(RangeFnError::OnlyPrimitiveReturns),
    }
}

/// The checks on a range function, in order: no attributes, no generic
/// parameters, no where clause, exactly one input, not `self`, no attributes
/// on it, an `i32` input, and a primitive number return type. The first
/// failing check gives the error.
pub open spec fn range_fn_check(item: ItemFnModel) -> Result<(), RangeFnError> {
    if item.attrs > 0 {
        Err(RangeFnError::Attributes)
    } else if item.sig.generic_params > 0 {
        Err(RangeFnError::Generics)
    } else if item.sig.where_clause {
        Err(RangeFnError::WhereClause)
    } else if item.sig.inputs@.len() != 1 {
        Err(RangeFnError::ExactlyOneInput)
    } else {
        match item.sig.inputs@[0] {
            FnArgModel::Receiver => Err(RangeFnError::NotAMethod),
            FnArgModel::Typed(arg) => if arg.attrs > 0 {
                Err(RangeFnError::Attributes)
            } else {
                match range_input_check(arg.ty) {
                    Err(e) => Err(e),
                    Ok(()) => range_output_check(item.sig.output),
                }
            },
        }
    }
}

/// The name a type path consists of, as `single_segment` gives it.
fn single_segment_of(p: &TypePathModel) -> (r: Option<&String>)
    ensures
        r is Some <==> single_segment(*p) is Some,
        r matches Some(name) ==> single_segment(*p) == Some(name@),
{
    if !p.qself && p.segments.len() == 1 && p.segments[0].arguments.is_empty() {
        Some(&p.segments[0].ident)
    } else {
        None
    }
}

/// Whether `s` names an integer type a range function's input may have.
pub fn range_int_name(s: &str) -> (r: bool)
    ensures
        r == is_range_int(s@),
{
    str_eq(s, "isize") || str_eq(s, "usize") || str_eq(s, "i8") || str_eq(s, "u8") || str_eq(
        s,
        "i16",
    ) || str_eq(s, "u16") || str_eq(s, "i32") || str_eq(s, "u32") || str_eq(s, "i64") || str_eq(
        s,
        "u64",
    )
}

/// Whether `s` names a number type a range function may return.
pub fn range_output_name(s: &str) -> (r: bool)
    ensures
        r == is_range_output(s@),
{
    str_eq(s, "f32") || str_eq(s, "f64") || range_int_name(s)
}

/// Checks a range function's input type.
fn check_range_input(ty: &TypeModel) -> (r: Result<(), RangeFnError>)
    ensures
        r == range_input_check(*ty),
{
    match ty {
        TypeModel::Path(p) => match single_segment_of(p) {
            None => Err(RangeFnError::OnlyIntegers),
            Some(name) => {
                if !range_int_name(name.as_str()) {
                    Err(RangeFnError::OnlyIntegers)
                } else if !str_eq(name.as_str(), "i32") {
                    Err(RangeFnError::OnlyI32)
                } else {
                    Ok(())
                }
            },
        },
        _ => Err(RangeFnError::OnlyIntegers),
    }
}

/// Checks a range function's return type.
fn check_range_output(output: &ReturnTypeModel) -> (r: Result<(), RangeFnError>)
    ensures
        r == range_output_check(*output),
{
    match output {
        ReturnTypeModel::Default => Err(RangeFnError::NoReturn),
        ReturnTypeModel::Type(TypeModel::Path(p)) => match single_segment_of(p) {
            Some(name) => {
                if range_output_name(name.as_str()) {
                    Ok(())
                } else {
                    Err(RangeFnError::OnlyPrimitiveReturns)
                }
            },
            None => Err(RangeFnError::OnlyPrimitiveReturns),
        },
        ReturnTypeModel::Type(_) => Err(RangeFnError::OnlyPrimitiveReturns),
    }
}

impl RangeFn {
    /// Accepts a function as a range function, or gives the first check it
    /// fails.
    pub fn parse(item: ItemFnModel) -> (r: Result<RangeFn, RangeFnError>)
        ensures
            r is Ok <==> range_fn_check(item) is Ok,
            r matches Ok(f) ==> f.0 == item,
            r matches Err(e) ==> range_fn_check(item) == Err::<(), RangeFnError>(e),
    {
        if item.attrs > 0 {
            return Err(RangeFnError::Attributes);
        }
        if item.sig.generic_params > 0 {
            return Err(RangeFnError::Generics);
        }
        if item.sig.where_clause {
            return Err(RangeFnError::WhereClause);
        }
        if item.sig.inputs.len() != 1 {
            return Err(RangeFnError::ExactlyOneInput);
        }
        match &item.sig.inputs[0] {
            FnArgModel::Receiver => {
                return Err(RangeFnError::NotAMethod);
            },
            FnArgModel::Typed(arg) => {
                if arg.attrs > 0 {
                    return Err(RangeFnError::Attributes);
                }
                check_range_input(&arg.ty)?;
            },
        }
        check_range_output(&item.sig.output)?;
        Ok(RangeFn(item))
    }
}

/// A range function takes exactly one input, of type `i32`, and returns a
/// primitive number type: whatever function is accepted has that shape.
pub proof fn law_range_fn_shape(item: ItemFnModel)
    requires
        range_fn_check(item) is Ok,
    ensures
        item.attrs == 0,
        item.sig.generic_params == 0,
        !item.sig.where_clause,
        item.sig.inputs@.len() == 1,
        item.sig.inputs@[0] matches FnArgModel::Typed(arg) && arg.attrs == 0 && (arg.ty matches TypeModel::Path(p)
            && single_segment(p) == Some("i32"@)),
        item.sig.output matches ReturnTypeModel::Type(TypeModel::Path(p)) && single_segment(p) matches Some(name)
            && is_range_output(name),
{
}

/// A range function's input may be written with any of the integer types
/// `i8` to `i64`, `u8` to `u64`, `isize` and `usize`, and it may return any
/// of these or `f32` and `f64`.
pub proof fn law_range_type_names()
    ensures
        is_range_int("isize"@),
        is_range_int("usize"@),
        is_range_int("i8"@),
        is_range_int("u8"@),
        is_range_int("i16"@),
        is_range_int("u16"@),
        is_range_int("i32"@),
        is_range_int("u32"@),
        is_range_int("i64"@),
        is_range_int("u64"@),
        is_range_output("isize"@),
        is_range_output("usize"@),
        is_range_output("i8"@),
        is_range_output("u8"@),
        is_range_output("i16"@),
        is_range_output("u16"@),
        is_range_output("i32"@),
        is_range_output("u32"@),
        is_range_output("i64"@),
        is_range_output("u64"@),
        is_range_output("f32"@),
        is_range_output("f64"@),
{
}

} // verus!
