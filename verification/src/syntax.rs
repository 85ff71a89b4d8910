//! Plain-value models of the parts of a Rust function item that the
//! validation rules read.
//!
//! A front end fills these from a parsed function: flags for the tokens that
//! may or may not be present, counts of attributes and generic parameters,
//! names of identifiers, and the token text of the parts (visibility,
//! patterns, bodies) that are carried through unchanged.
use vstd::prelude::*;

verus! {

/// The generic arguments written after a path segment.
#[derive(Debug, Clone, Copy, PartialEq, Eq, Structural)]
pub enum PathArgsModel {
    /// No arguments: `Foo`.
    Plain,
    /// Angle-bracketed arguments, with their number: `Foo<T, U>`.
    AngleBracketed { args: usize },
    /// Parenthesized arguments: `Fn(A) -> B`.
    Parenthesized,
}

/// One segment of a path, such as `zst` in `spindle::zst::Any`.
#[derive(Debug, Clone)]
pub struct PathSegmentModel {
    pub ident: String,
    pub arguments: PathArgsModel,
}

/// A type written as a path, such as `f64` or `spindle::zst::Any`.
#[derive(Debug, Clone)]
pub struct TypePathModel {
    /// A qualified self type is present: `<T as Trait>::Assoc`.
    pub qself: bool,
    /// The path begins with `::`.
    pub leading_colon: bool,
    /// The segments, in order.
    pub segments: Vec<PathSegmentModel>,
}

/// A type, as far as the rules tell types apart.
#[derive(Debug, Clone)]
pub enum TypeModel {
    Path(TypePathModel),
    Array,
    Reference,
    Tuple,
    Other,
}

/// A typed argument `pat: ty`.
#[derive(Debug, Clone)]
pub struct PatTypeModel {
    /// The number of attributes on the argument.
    pub attrs: usize,
    /// The token text of the pattern.
    pub pat: String,
    pub ty: TypeModel,
}

/// An argument of a function signature.
#[derive(Debug, Clone)]
pub enum FnArgModel {
    /// A `self` receiver.
    Receiver,
    Typed(PatTypeModel),
}

/// The return type of a function signature.
#[derive(Debug, Clone)]
pub enum ReturnTypeModel {
    /// No `->`.
    Default,
    Type(TypeModel),
}

/// A function signature.
#[derive(Debug, Clone)]
pub struct SignatureModel {
    pub constness: bool,
    pub asyncness: bool,
    pub unsafety: bool,
    /// An `extern "..."` ABI is present.
    pub abi: bool,
    pub ident: String,
    /// The number of generic parameters.
    pub generic_params: usize,
    pub where_clause: bool,
    pub inputs: Vec<FnArgModel>,
    /// The last input is followed by a comma.
    pub trailing_comma: bool,
    pub variadic: bool,
    pub output: ReturnTypeModel,
}

/// A free-standing function item.
#[derive(Debug, Clone)]
pub struct ItemFnModel {
    /// The number of attributes on the item.
    pub attrs: usize,
    /// The token text of the visibility (empty when inherited).
    pub vis: String,
    pub sig: SignatureModel,
    /// The token text of the body, braces included.
    pub block: String,
}

impl PathArgsModel {
    /// Mirrors `syn::PathArguments::is_empty`: no arguments, or empty angle
    /// brackets.
    pub open spec fn spec_is_empty(&self) -> bool {
        match *self {
            PathArgsModel::Plain => true,
            PathArgsModel::AngleBracketed { args } => args == 0,
            PathArgsModel::Parenthesized => false,
        }
    }

    #[verifier::when_used_as_spec(spec_is_empty)]
    pub fn is_empty(&self) -> (r: bool)
        ensures
            r == self.spec_is_empty(),
    {
        match self {
            PathArgsModel::Plain => true,
            PathArgsModel::AngleBracketed { args } => *args == 0,
            PathArgsModel::Parenthesized => false,
        }
    }
}

impl TypePathModel {
    /// The path is a single plain identifier (`syn::Path::get_ident`): no
    /// leading `::`, one segment, no arguments on it.
    pub open spec fn spec_get_ident(self) -> Option<Seq<char>> {
        if !self.leading_colon && self.segments@.len() == 1
            && self.segments@[0].arguments == PathArgsModel::Plain {
            Some(self.segments@[0].ident@)
        } else {
            None
        }
    }

    /// The identifier the path is made of, if it is a single plain one.
    pub fn get_ident(&self) -> (r: Option<String>)
        ensures
            r is Some <==> self.spec_get_ident() is Some,
            r matches Some(name) ==> self.spec_get_ident() == Some(name@),
    {
        if !self.leading_colon && self.segments.len() == 1 {
            match self.segments[0].arguments {
                PathArgsModel::Plain => Some(self.segments[0].ident.clone()),
                _ => None,
            }
        } else {
            None
        }
    }
}

} // verus!
