//! Primitive types named by lower snake case identifiers.
use vstd::prelude::*;
use crate::case::LowerSnakeIdent;
use crate::text::str_eq;

verus! {

/// A primitive type, by its name.
#[derive(Debug, Clone)]
pub struct _Primitive {
    pub ident: LowerSnakeIdent,
}

/// The integer type names.
pub open spec fn is_integer_name(s: Seq<char>) -> bool {
    ||| s == "i8"@ ||| s == "i16"@ ||| s == "i32"@ ||| s == "i64"@ ||| s == "i128"@
    ||| s == "u8"@ ||| s == "u16"@ ||| s == "u32"@ ||| s == "u64"@ ||| s == "u128"@
    ||| s == "isize"@ ||| s == "usize"@
}

impl _Primitive {
    /// The type's name.
    pub open spec fn name(&self) -> Seq<char> {
        self.ident.0@
    }

    /// Whether the type is an integer type.
    pub fn is_integer(&self) -> (r: bool)
        ensures
            r == is_integer_name(self.name()),
    {
        let s = self.ident.0.as_str();
        str_eq(s, "i8") || str_eq(s, "i16") || str_eq(s, "i32") || str_eq(s, "i64") || str_eq(
            s,
            "i128",
        ) || str_eq(s, "u8") || str_eq(s, "u16") || str_eq(s, "u32") || str_eq(s, "u64")
            || str_eq(s, "u128") || str_eq(s, "isize") || str_eq(s, "usize")
    }
}

impl PartialEq for _Primitive {
    /// Two primitives are equal when their names are.
    fn eq(&self, other: &Self) -> (r: bool) {
        self.ident.0 == other.ident.0
    }
}

impl vstd::std_specs::cmp::PartialEqSpecImpl for _Primitive {
    open spec fn obeys_eq_spec() -> bool {
        true
    }

    open spec fn eq_spec(&self, other: &Self) -> bool {
        self.ident.0@ == other.ident.0@
    }
}

/// The integer types are `i8` to `i128`, `u8` to `u128`, `isize` and
/// `usize`.
pub proof fn law_integer_names()
    ensures
        is_integer_name("i8"@),
        is_integer_name("i16"@),
        is_integer_name("i32"@),
        is_integer_name("i64"@),
        is_integer_name("i128"@),
        is_integer_name("u8"@),
        is_integer_name("u16"@),
        is_integer_name("u32"@),
        is_integer_name("u64"@),
        is_integer_name("u128"@),
        is_integer_name("isize"@),
        is_integer_name("usize"@),
{
}

} // verus!
