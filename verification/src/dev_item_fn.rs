//! Device functions: the subset of Rust functions that can be compiled for
//! the GPU, and the rules that decide whether a function belongs to it.
use vstd::prelude::*;
use crate::case::{heck_snake, is_lower_alnum, to_snake_case};
use crate::syntax::{
    FnArgModel, ItemFnModel, PathArgsModel, PathSegmentModel, ReturnTypeModel, SignatureModel,
    TypeModel, TypePathModel,
};
use crate::text::str_eq;

verus! {

/// The three families of device types.
#[derive(Debug, Clone, Copy, PartialEq, Eq, Structural)]
pub enum DevTypeKind {
    /// `f32`, `f64`
    Float,
    /// `bool`
    Bool,
    /// `{i|u}{8|16|32|64}` and `{i|u}size`
    SizedInteger,
}

/// A type that device code can take or return, held by its name.
#[derive(Debug, Clone)]
pub enum DevType {
    Float(String),
    Bool(String),
    SizedInteger(String),
}

/// The type of a device function argument.
#[derive(Debug, Clone)]
pub enum DevArgType {
    DeviceType(DevType),
    /// `Any`
    SpindleAny,
    /// `spindle::zst::Any`
    SpindleAnyFullPath,
}

/// A typed argument of a device function.
#[derive(Debug, Clone)]
pub struct DevFnArg {
    /// The token text of the pattern.
    pub pat: String,
    pub ty: DevArgType,
}

/// A tuple of device types.
#[derive(Debug, Clone)]
pub struct DevTypeTuple {
    pub elems: Vec<DevType>,
}

/// The return type of a device function.
#[derive(Debug, Clone)]
pub enum DevReturnType {
    Default,
    Type(DevType),
    Tuple(DevTypeTuple),
}

/// The name of a device function.
#[derive(Debug, Clone)]
pub struct DevFnIdent(pub String);

/// The signature of a device function.
#[derive(Debug, Clone)]
pub struct DevSignature {
    pub ident: DevFnIdent,
    pub inputs: Vec<DevFnArg>,
    /// The last input is followed by a comma.
    pub trailing_comma: bool,
    pub output: DevReturnType,
}

/// A device function.
#[derive(Debug, Clone)]
pub struct DevItemFn {
    /// The token text of the visibility.
    pub vis: String,
    pub sig: DevSignature,
    /// The token text of the body.
    pub block: String,
}

/// The part of a function that a rejection points at.
#[derive(Debug, Clone, Copy, PartialEq, Eq, Structural)]
pub enum Spot {
    Attrs,
    Constness,
    Asyncness,
    Unsafety,
    Abi,
    Generics,
    WhereClause,
    Variadic,
    Ident,
    /// The `arg`-th input as a whole.
    Arg { arg: usize },
    ArgAttrs { arg: usize },
    ArgQself { arg: usize },
    ArgLeadingColon { arg: usize },
    /// A segment of the type path of the `arg`-th input.
    ArgSegment { arg: usize, segment: usize },
    /// The generic arguments of such a segment.
    ArgSegmentArgs { arg: usize, segment: usize },
    /// The second input (a signature that must have exactly one).
    SecondArg,
    /// The return type as a whole.
    Output,
    OutputQself,
    OutputLeadingColon,
    OutputSegment { segment: usize },
    OutputSegmentArgs { segment: usize },
}

/// Why a function is not a device function.
#[derive(Debug, Clone, Copy, PartialEq, Eq, Structural)]
pub enum DevErrorKind {
    Attributes,
    Const,
    Async,
    Unsafe,
    Abi,
    GenericParams,
    WhereClause,
    Variadic,
    LeadingUnderscore,
    TrailingUnderscore,
    NotSnakeCase,
    Receiver,
    ArgAttributes,
    ArgQualifiedSelf,
    ArgLeadingColon,
    AngleBracketedArgs,
    ParenthesizedArgs,
    NotSpindleAnyPath,
    UnsupportedArgType,
    NotDeviceType,
    ReturnQualifiedSelf,
    ReturnLeadingColon,
    ReturnMultiSegment,
    /// A signature that must have exactly one input has another number.
    ExpectedOneArgument,
    /// A map function without inputs.
    ExpectedAnInput,
    /// A map function with more than one input.
    ExpectedOnlyOneInput,
    /// A map function whose input is `Any`.
    InputIsAny,
    /// A map function whose input is `spindle::zst::Any`.
    InputIsAnyPath,
    /// Generated code for a function needs exactly one union.
    ExpectedOneUnion,
}

/// A rejection: what is wrong and where.
#[derive(Debug, Clone, Copy, PartialEq, Eq, Structural)]
pub struct DevError {
    pub at: Spot,
    pub kind: DevErrorKind,
}

/// The outcome of checking a part of a function.
#[derive(Debug, Clone, Copy, PartialEq, Eq, Structural)]
pub enum Check {
    /// The part is accepted.
    Pass,
    /// The part is rejected.
    Fail(DevError),
    /// The part is of a form that the rules do not handle yet.
    Unsupported,
}

pub open spec fn fail(at: Spot, kind: DevErrorKind) -> Check {
    Check::Fail(DevError { at, kind })
}

impl DevErrorKind {
    /// The message shown for this rejection.
    pub open spec fn spec_message(self) -> &'static str {
        match self {
            DevErrorKind::Attributes => "Device functions attributes are not supported.",
            DevErrorKind::Const => "Device functions cannot be const.",
            DevErrorKind::Async => "Device functions cannot be async.",
            DevErrorKind::Unsafe => "Device functions cannot be unsafe.",
            DevErrorKind::Abi => "Device functions cannot have an abi.",
            DevErrorKind::GenericParams => "Device functions cannot have generic parameters.",
            DevErrorKind::WhereClause => "Device functions cannot have a where clause.",
            DevErrorKind::Variadic => "Device functions cannot be variadic.",
            DevErrorKind::LeadingUnderscore =>
                "Leading underscores are not supported in device function names.",
            DevErrorKind::TrailingUnderscore =>
                "Trailing underscores are not supported in device function names.",
            DevErrorKind::NotSnakeCase => "Device function names must be in upper camel case.",
            DevErrorKind::Receiver => "Device functions cannot have a receiver.",
            DevErrorKind::ArgAttributes => "Device function argument attributes are not supported.",
            DevErrorKind::ArgQualifiedSelf =>
                "Device function arguments cannot have a qualified self.",
            DevErrorKind::ArgLeadingColon => "Device function arguments cannot have a leading colon.",
            DevErrorKind::AngleBracketedArgs =>
                "Device function arguments cannot have angle-bracketed arguments.",
            DevErrorKind::ParenthesizedArgs =>
                "Device function arguments cannot have parenthesized arguments.",
            DevErrorKind::NotSpindleAnyPath => "The only allowed path is `spindle::zst::Any`.",
            DevErrorKind::UnsupportedArgType =>
                "Device function arguments may be `f{32|64}`, `bool`, `{i|u}{8|16|32|64}`, `{i|u}size`, `Any`, or `spindle::zst::Any`.",
            DevErrorKind::NotDeviceType =>
                "Device types are may be `f{32|64}`, `bool`, `{i|u}{8|16|32|64}`, and `{i|u}size`.",
            DevErrorKind::ReturnQualifiedSelf =>
                "Device function return types cannot have a qualified self.",
            DevErrorKind::ReturnLeadingColon =>
                "Device function return types cannot have a leading colon.",
            DevErrorKind::ReturnMultiSegment =>
                "Device function return types cannot have a path with more than one segment.",
            DevErrorKind::ExpectedOneArgument => "expected exactly one argument",
            DevErrorKind::ExpectedAnInput => "Expected at least one input parameter",
            DevErrorKind::ExpectedOnlyOneInput => "Expected only one input parameter.",
            DevErrorKind::InputIsAny => "Expected a device type, not Any.",
            DevErrorKind::InputIsAnyPath => "Expected a device type, not spindle::zst::Any.",
            DevErrorKind::ExpectedOneUnion => "expected exactly one union ident",
        }
    }

    /// The message shown for this rejection.
    pub fn message(&self) -> (m: &'static str)
        ensures
            m == self.spec_message(),
    {
        match self {
            DevErrorKind::Attributes => "Device functions attributes are not supported.",
            DevErrorKind::Const => "Device functions cannot be const.",
            DevErrorKind::Async => "Device functions cannot be async.",
            DevErrorKind::Unsafe => "Device functions cannot be unsafe.",
            DevErrorKind::Abi => "Device functions cannot have an abi.",
            DevErrorKind::GenericParams => "Device functions cannot have generic parameters.",
            DevErrorKind::WhereClause => "Device functions cannot have a where clause.",
            DevErrorKind::Variadic => "Device functions cannot be variadic.",
            DevErrorKind::LeadingUnderscore =>
                "Leading underscores are not supported in device function names.",
            DevErrorKind::TrailingUnderscore =>
                "Trailing underscores are not supported in device function names.",
            DevErrorKind::NotSnakeCase => "Device function names must be in upper camel case.",
            DevErrorKind::Receiver => "Device functions cannot have a receiver.",
            DevErrorKind::ArgAttributes => "Device function argument attributes are not supported.",
            DevErrorKind::ArgQualifiedSelf =>
                "Device function arguments cannot have a qualified self.",
            DevErrorKind::ArgLeadingColon => "Device function arguments cannot have a leading colon.",
            DevErrorKind::AngleBracketedArgs =>
                "Device function arguments cannot have angle-bracketed arguments.",
            DevErrorKind::ParenthesizedArgs =>
                "Device function arguments cannot have parenthesized arguments.",
            DevErrorKind::NotSpindleAnyPath => "The only allowed path is `spindle::zst::Any`.",
            DevErrorKind::UnsupportedArgType =>
                "Device function arguments may be `f{32|64}`, `bool`, `{i|u}{8|16|32|64}`, `{i|u}size`, `Any`, or `spindle::zst::Any`.",
            DevErrorKind::NotDeviceType =>
                "Device types are may be `f{32|64}`, `bool`, `{i|u}{8|16|32|64}`, and `{i|u}size`.",
            DevErrorKind::ReturnQualifiedSelf =>
                "Device function return types cannot have a qualified self.",
            DevErrorKind::ReturnLeadingColon =>
                "Device function return types cannot have a leading colon.",
            DevErrorKind::ReturnMultiSegment =>
                "Device function return types cannot have a path with more than one segment.",
            DevErrorKind::ExpectedOneArgument => "expected exactly one argument",
            DevErrorKind::ExpectedAnInput => "Expected at least one input parameter",
            DevErrorKind::ExpectedOnlyOneInput => "Expected only one input parameter.",
            DevErrorKind::InputIsAny => "Expected a device type, not Any.",
            DevErrorKind::InputIsAnyPath => "Expected a device type, not spindle::zst::Any.",
            DevErrorKind::ExpectedOneUnion => "expected exactly one union ident",
        }
    }
}

/// The device type family a type name belongs to, if any.
pub open spec fn dev_type_kind(name: Seq<char>) -> Option<DevTypeKind> {
    if name == "bool"@ {
        Some(DevTypeKind::Bool)
    } else if name == "isize"@ || name == "usize"@ {
        Some(DevTypeKind::SizedInteger)
    } else if name == "f32"@ || name == "f64"@ {
        Some(DevTypeKind::Float)
    } else if name == "i8"@ || name == "i16"@ || name == "i32"@ || name == "i64"@ || name == "u8"@
        || name == "u16"@ || name == "u32"@ || name == "u64"@ {
        Some(DevTypeKind::SizedInteger)
    } else {
        None
    }
}

impl DevType {
    pub open spec fn kind(&self) -> DevTypeKind {
        match *self {
            DevType::Float(_) => DevTypeKind::Float,
            DevType::Bool(_) => DevTypeKind::Bool,
            DevType::SizedInteger(_) => DevTypeKind::SizedInteger,
        }
    }

    pub open spec fn name(&self) -> Seq<char> {
        match *self {
            DevType::Float(n) => n@,
            DevType::Bool(n) => n@,
            DevType::SizedInteger(n) => n@,
        }
    }

    /// This value is the device type named `name`.
    pub open spec fn names(&self, name: Seq<char>) -> bool {
        self.name() == name && dev_type_kind(name) == Some(self.kind())
    }

    /// A copy of this type.
    pub fn duplicate(&self) -> (r: DevType)
        ensures
            r == *self,
    {
        match self {
            DevType::Float(n) => DevType::Float(n.clone()),
            DevType::Bool(n) => DevType::Bool(n.clone()),
            DevType::SizedInteger(n) => DevType::SizedInteger(n.clone()),
        }
    }

    /// The name of the type.
    pub fn ident(&self) -> (r: &String)
        ensures
            r@ == self.name(),
    {
        match self {
            DevType::Float(n) => n,
            DevType::Bool(n) => n,
            DevType::SizedInteger(n) => n,
        }
    }

    /// The device type named `name`; the rejection points at `at`.
    pub fn try_from(name: String, at: Spot) -> (r: Result<DevType, DevError>)
        ensures
            r is Ok <==> dev_type_kind(name@) is Some,
            r matches Ok(t) ==> t.names(name@),
            r matches Err(e) ==> e == (DevError { at, kind: DevErrorKind::NotDeviceType }),
    {
        if str_eq(name.as_str(), "bool") {
            return Ok(DevType::Bool(name));
        }
        if str_eq(name.as_str(), "isize") || str_eq(name.as_str(), "usize") {
            return Ok(DevType::SizedInteger(name));
        }
        if str_eq(name.as_str(), "f32") || str_eq(name.as_str(), "f64") {
            return Ok(DevType::Float(name));
        }
        let n = name.as_str();
        if str_eq(n, "i8") || str_eq(n, "i16") || str_eq(n, "i32") || str_eq(n, "i64") || str_eq(
            n,
            "u8",
        ) || str_eq(n, "u16") || str_eq(n, "u32") || str_eq(n, "u64") {
            return Ok(DevType::SizedInteger(name));
        }
        Err(DevError { at, kind: DevErrorKind::NotDeviceType })
    }
}

/// The check of a segment's generic arguments: a segment that is turned into
/// a plain identifier must have none.
pub open spec fn segment_args_check(args: PathArgsModel, at: Spot) -> Check {
    match args {
        PathArgsModel::Plain => Check::Pass,
        PathArgsModel::AngleBracketed { .. } => fail(at, DevErrorKind::AngleBracketedArgs),
        PathArgsModel::Parenthesized => fail(at, DevErrorKind::ParenthesizedArgs),
    }
}

/// The identifier of a path segment that has no generic arguments.
pub fn path_segment_to_ident(segment: &PathSegmentModel, at: Spot) -> (r: Result<String, DevError>)
    ensures
        r is Ok <==> segment_args_check(segment.arguments, at) == Check::Pass,
        r matches Ok(name) ==> name@ == segment.ident@,
        r matches Err(e) ==> segment_args_check(segment.arguments, at) == Check::Fail(e),
{
    match segment.arguments {
        PathArgsModel::Plain => Ok(segment.ident.clone()),
        PathArgsModel::AngleBracketed { .. } => Err(
            DevError { at, kind: DevErrorKind::AngleBracketedArgs },
        ),
        PathArgsModel::Parenthesized => Err(DevError { at, kind: DevErrorKind::ParenthesizedArgs }),
    }
}

/// The check of a single device type named by a one-segment path.
pub open spec fn single_segment_check(seg: PathSegmentModel, at_ident: Spot, at_args: Spot) -> Check {
    if segment_args_check(seg.arguments, at_args) != Check::Pass {
        segment_args_check(seg.arguments, at_args)
    } else if dev_type_kind(seg.ident@) is None {
        fail(at_ident, DevErrorKind::NotDeviceType)
    } else {
        Check::Pass
    }
}

/// The check of the type of the `i`-th argument.
pub open spec fn arg_type_check(ty: TypeModel, i: usize) -> Check {
    match ty {
        TypeModel::Path(p) => {
            let segs = p.segments@;
            if p.qself {
                fail(Spot::ArgQself { arg: i }, DevErrorKind::ArgQualifiedSelf)
            } else if p.leading_colon {
                fail(Spot::ArgLeadingColon { arg: i }, DevErrorKind::ArgLeadingColon)
            } else if segs.len() == 0 {
                Check::Unsupported
            } else if segs.len() == 1 {
                let at_args = Spot::ArgSegmentArgs { arg: i, segment: 0 };
                if segment_args_check(segs[0].arguments, at_args) != Check::Pass {
                    segment_args_check(segs[0].arguments, at_args)
                } else if segs[0].ident@ == "Any"@ {
                    Check::Pass
                } else {
                    single_segment_check(segs[0], Spot::ArgSegment { arg: i, segment: 0 }, at_args)
                }
            } else if segs.len() == 3 {
                let a0 = Spot::ArgSegmentArgs { arg: i, segment: 0 };
                let a1 = Spot::ArgSegmentArgs { arg: i, segment: 1 };
                let a2 = Spot::ArgSegmentArgs { arg: i, segment: 2 };
                if segment_args_check(segs[0].arguments, a0) != Check::Pass {
                    segment_args_check(segs[0].arguments, a0)
                } else if segment_args_check(segs[1].arguments, a1) != Check::Pass {
                    segment_args_check(segs[1].arguments, a1)
                } else if segment_args_check(segs[2].arguments, a2) != Check::Pass {
                    segment_args_check(segs[2].arguments, a2)
                } else if segs[0].ident@ == "spindle"@ && segs[1].ident@ == "zst"@ && segs[2].ident@
                    == "Any"@ {
                    Check::Pass
                } else {
                    fail(Spot::ArgSegment { arg: i, segment: 0 }, DevErrorKind::NotSpindleAnyPath)
                }
            } else {
                fail(Spot::ArgSegment { arg: i, segment: 0 }, DevErrorKind::UnsupportedArgType)
            }
        },
        _ => Check::Unsupported,
    }
}

impl DevArgType {
    /// A copy of this argument type.
    pub fn duplicate(&self) -> (r: DevArgType)
        ensures
            r == *self,
    {
        match self {
            DevArgType::DeviceType(t) => DevArgType::DeviceType(t.duplicate()),
            DevArgType::SpindleAny => DevArgType::SpindleAny,
            DevArgType::SpindleAnyFullPath => DevArgType::SpindleAnyFullPath,
        }
    }

    /// This argument type is the one written as `ty`.
    pub open spec fn reproduces(&self, ty: TypeModel) -> bool {
        match ty {
            TypeModel::Path(p) => match *self {
                DevArgType::DeviceType(d) => p.segments@.len() == 1 && d.names(
                    p.segments@[0].ident@,
                ),
                DevArgType::SpindleAny => p.segments@.len() == 1 && p.segments@[0].ident@
                    == "Any"@,
                DevArgType::SpindleAnyFullPath => p.segments@.len() == 3,
            },
            _ => false,
        }
    }

    /// The device argument type written as `ty`, the type of the `i`-th
    /// argument.
    pub fn try_from(ty: &TypeModel, i: usize) -> (r: Result<DevArgType, DevError>)
        requires
            arg_type_check(*ty, i) != Check::Unsupported,
        ensures
            r is Ok <==> arg_type_check(*ty, i) == Check::Pass,
            r matches Err(e) ==> arg_type_check(*ty, i) == Check::Fail(e),
            r matches Ok(t) ==> t.reproduces(*ty),
    {
        let path: &TypePathModel = match ty {
            TypeModel::Path(p) => p,
            _ => {
                assert(false);
                return Err(DevError { at: Spot::Arg { arg: i }, kind: DevErrorKind::UnsupportedArgType });
            },
        };
        if path.qself {
            return Err(DevError { at: Spot::ArgQself { arg: i }, kind: DevErrorKind::ArgQualifiedSelf });
        }
        if path.leading_colon {
            return Err(
                DevError { at: Spot::ArgLeadingColon { arg: i }, kind: DevErrorKind::ArgLeadingColon },
            );
        }
        let n = path.segments.len();
        if n == 1 {
            let at_args = Spot::ArgSegmentArgs { arg: i, segment: 0 };
            let ident = path_segment_to_ident(&path.segments[0], at_args)?;
            if str_eq(ident.as_str(), "Any") {
                return Ok(DevArgType::SpindleAny);
            }
            let dev_type = DevType::try_from(ident, Spot::ArgSegment { arg: i, segment: 0 })?;
            Ok(DevArgType::DeviceType(dev_type))
        } else if n == 3 {
            let spindle = path_segment_to_ident(
                &path.segments[0],
                Spot::ArgSegmentArgs { arg: i, segment: 0 },
            )?;
            let zst = path_segment_to_ident(
                &path.segments[1],
                Spot::ArgSegmentArgs { arg: i, segment: 1 },
            )?;
            let any = path_segment_to_ident(
                &path.segments[2],
                Spot::ArgSegmentArgs { arg: i, segment: 2 },
            )?;
            if !str_eq(spindle.as_str(), "spindle") || !str_eq(zst.as_str(), "zst") || !str_eq(
                any.as_str(),
                "Any",
            ) {
                return Err(
                    DevError {
                        at: Spot::ArgSegment { arg: i, segment: 0 },
                        kind: DevErrorKind::NotSpindleAnyPath,
                    },
                );
            }
            Ok(DevArgType::SpindleAnyFullPath)
        } else {
            Err(
                DevError {
                    at: Spot::ArgSegment { arg: i, segment: 0 },
                    kind: DevErrorKind::UnsupportedArgType,
                },
            )
        }
    }
}

/// The check of the `i`-th argument.
pub open spec fn arg_check(arg: FnArgModel, i: usize) -> Check {
    match arg {
        FnArgModel::Receiver => fail(Spot::Arg { arg: i }, DevErrorKind::Receiver),
        FnArgModel::Typed(t) => if t.attrs != 0 {
            fail(Spot::ArgAttrs { arg: i }, DevErrorKind::ArgAttributes)
        } else {
            arg_type_check(t.ty, i)
        },
    }
}

/// The check of a list of arguments: the outcome of the first argument that
/// is not accepted, or `Pass` when every one is.
pub open spec fn inputs_check(args: Seq<FnArgModel>) -> Check
    decreases args.len(),
{
    if args.len() == 0 {
        Check::Pass
    } else {
        let prev = inputs_check(args.drop_last());
        if prev != Check::Pass {
            prev
        } else {
            arg_check(args.last(), (args.len() - 1) as usize)
        }
    }
}

impl DevFnArg {
    /// This argument is the one written as `arg`.
    pub open spec fn reproduces(&self, arg: FnArgModel) -> bool {
        match arg {
            FnArgModel::Typed(t) => self.pat@ == t.pat@ && self.ty.reproduces(t.ty),
            FnArgModel::Receiver => false,
        }
    }

    /// The device function argument written as `arg`, the `i`-th input.
    pub fn try_from(arg: &FnArgModel, i: usize) -> (r: Result<DevFnArg, DevError>)
        requires
            arg_check(*arg, i) != Check::Unsupported,
        ensures
            r is Ok <==> arg_check(*arg, i) == Check::Pass,
            r matches Err(e) ==> arg_check(*arg, i) == Check::Fail(e),
            r matches Ok(a) ==> a.reproduces(*arg),
    {
        match arg {
            FnArgModel::Receiver => Err(DevError { at: Spot::Arg { arg: i }, kind: DevErrorKind::Receiver }),
            FnArgModel::Typed(typed) => {
                if typed.attrs != 0 {
                    return Err(
                        DevError { at: Spot::ArgAttrs { arg: i }, kind: DevErrorKind::ArgAttributes },
                    );
                }
                let ty = DevArgType::try_from(&typed.ty, i)?;
                Ok(DevFnArg { pat: typed.pat.clone(), ty })
            },
        }
    }
}

/// The rule for device function names, as the kind of rejection if any:
/// no leading underscore, no trailing underscore, and unchanged by heck's
/// snake case conversion.
pub open spec fn ident_check(name: Seq<char>) -> Option<DevErrorKind> {
    if name.len() > 0 && name[0] == '_' {
        Some(DevErrorKind::LeadingUnderscore)
    } else if name.len() > 0 && name.last() == '_' {
        Some(DevErrorKind::TrailingUnderscore)
    } else if heck_snake(name) != name {
        Some(DevErrorKind::NotSnakeCase)
    } else {
        None
    }
}

impl DevFnIdent {
    /// The device function name `name`.
    pub fn try_from(name: String) -> (r: Result<DevFnIdent, DevError>)
        ensures
            r is Ok <==> ident_check(name@) is None,
            is_lower_alnum(name@) && name@.len() > 0 && 'a' <= name@[0] <= 'z' ==> r is Ok,
            r matches Ok(id) ==> id.0@ == name@,
            r matches Err(e) ==> e.at == Spot::Ident && Some(e.kind) == ident_check(name@),
    {
        let n = name.as_str().unicode_len();
        if n > 0 && name.as_str().get_char(0) == '_' {
            return Err(DevError { at: Spot::Ident, kind: DevErrorKind::LeadingUnderscore });
        }
        if n > 0 && name.as_str().get_char(n - 1) == '_' {
            return Err(DevError { at: Spot::Ident, kind: DevErrorKind::TrailingUnderscore });
        }
        let snake_name = to_snake_case(name.as_str());
        if !str_eq(snake_name.as_str(), name.as_str()) {
            return Err(DevError { at: Spot::Ident, kind: DevErrorKind::NotSnakeCase });
        }
        Ok(DevFnIdent(name))
    }
}

/// The check of a return type.
pub open spec fn output_check(output: ReturnTypeModel) -> Check {
    match output {
        ReturnTypeModel::Default => Check::Pass,
        ReturnTypeModel::Type(TypeModel::Path(p)) => {
            let segs = p.segments@;
            if p.qself {
                fail(Spot::OutputQself, DevErrorKind::ReturnQualifiedSelf)
            } else if p.leading_colon {
                fail(Spot::OutputLeadingColon, DevErrorKind::ReturnLeadingColon)
            } else if segs.len() == 0 {
                Check::Unsupported
            } else if segs.len() == 1 {
                single_segment_check(
                    segs[0],
                    Spot::OutputSegment { segment: 0 },
                    Spot::OutputSegmentArgs { segment: 0 },
                )
            } else {
                fail(Spot::OutputSegment { segment: 0 }, DevErrorKind::ReturnMultiSegment)
            }
        },
        ReturnTypeModel::Type(_) => Check::Unsupported,
    }
}

impl DevReturnType {
    /// This return type is the one written as `output`.
    pub open spec fn reproduces(&self, output: ReturnTypeModel) -> bool {
        match (*self, output) {
            (DevReturnType::Default, ReturnTypeModel::Default) => true,
            (DevReturnType::Type(d), ReturnTypeModel::Type(TypeModel::Path(p))) => p.segments@.len()
                == 1 && d.names(p.segments@[0].ident@),
            _ => false,
        }
    }

    /// The device return type written as `output`.
    pub fn try_from(output: &ReturnTypeModel) -> (r: Result<DevReturnType, DevError>)
        requires
            output_check(*output) != Check::Unsupported,
        ensures
            r is Ok <==> output_check(*output) == Check::Pass,
            r matches Err(e) ==> output_check(*output) == Check::Fail(e),
            r matches Ok(t) ==> t.reproduces(*output),
    {
        match output {
            ReturnTypeModel::Default => Ok(DevReturnType::Default),
            ReturnTypeModel::Type(ty) => {
                let path: &TypePathModel = match ty {
                    TypeModel::Path(p) => p,
                    _ => {
                        assert(false);
                        return Err(DevError { at: Spot::Output, kind: DevErrorKind::NotDeviceType });
                    },
                };
                if path.qself {
                    return Err(
                        DevError { at: Spot::OutputQself, kind: DevErrorKind::ReturnQualifiedSelf },
                    );
                }
                if path.leading_colon {
                    return Err(
                        DevError { at: Spot::OutputLeadingColon, kind: DevErrorKind::ReturnLeadingColon },
                    );
                }
                if path.segments.len() == 1 {
                    let ident = path_segment_to_ident(
                        &path.segments[0],
                        Spot::OutputSegmentArgs { segment: 0 },
                    )?;
                    let dev_type = DevType::try_from(ident, Spot::OutputSegment { segment: 0 })?;
                    Ok(DevReturnType::Type(dev_type))
                } else {
                    Err(
                        DevError {
                            at: Spot::OutputSegment { segment: 0 },
                            kind: DevErrorKind::ReturnMultiSegment,
                        },
                    )
                }
            },
        }
    }
}

/// The check of a signature: its qualifiers, generics and variadic marker in
/// turn, then its name, its inputs in order and its return type.
pub open spec fn signature_check(sig: SignatureModel) -> Check {
    if sig.constness {
        fail(Spot::Constness, DevErrorKind::Const)
    } else if sig.asyncness {
        fail(Spot::Asyncness, DevErrorKind::Async)
    } else if sig.unsafety {
        fail(Spot::Unsafety, DevErrorKind::Unsafe)
    } else if sig.abi {
        fail(Spot::Abi, DevErrorKind::Abi)
    } else if sig.generic_params != 0 {
        fail(Spot::Generics, DevErrorKind::GenericParams)
    } else if sig.where_clause {
        fail(Spot::WhereClause, DevErrorKind::WhereClause)
    } else if sig.variadic {
        fail(Spot::Variadic, DevErrorKind::Variadic)
    } else if ident_check(sig.ident@) is Some {
        fail(Spot::Ident, ident_check(sig.ident@).unwrap())
    } else if inputs_check(sig.inputs@) != Check::Pass {
        inputs_check(sig.inputs@)
    } else {
        output_check(sig.output)
    }
}

impl DevSignature {
    /// This signature is the one written as `sig`.
    pub open spec fn reproduces(&self, sig: SignatureModel) -> bool {
        &&& self.ident.0@ == sig.ident@
        &&& self.inputs@.len() == sig.inputs@.len()
        &&& forall|i: int|
            0 <= i < self.inputs@.len() ==> #[trigger] self.inputs@[i].reproduces(sig.inputs@[i])
        &&& self.trailing_comma == sig.trailing_comma
        &&& self.output.reproduces(sig.output)
    }

    /// The device function signature written as `sig`.
    pub fn try_from(sig: SignatureModel) -> (r: Result<DevSignature, DevError>)
        requires
            signature_check(sig) != Check::Unsupported,
        ensures
            r is Ok <==> signature_check(sig) == Check::Pass,
            r matches Err(e) ==> signature_check(sig) == Check::Fail(e),
            r matches Ok(s) ==> s.reproduces(sig),
    {
        if sig.constness {
            return Err(DevError { at: Spot::Constness, kind: DevErrorKind::Const });
        }
        if sig.asyncness {
            return Err(DevError { at: Spot::Asyncness, kind: DevErrorKind::Async });
        }
        if sig.unsafety {
            return Err(DevError { at: Spot::Unsafety, kind: DevErrorKind::Unsafe });
        }
        if sig.abi {
            return Err(DevError { at: Spot::Abi, kind: DevErrorKind::Abi });
        }
        if sig.generic_params != 0 {
            return Err(DevError { at: Spot::Generics, kind: DevErrorKind::GenericParams });
        }
        if sig.where_clause {
            return Err(DevError { at: Spot::WhereClause, kind: DevErrorKind::WhereClause });
        }
        if sig.variadic {
            return Err(DevError { at: Spot::Variadic, kind: DevErrorKind::Variadic });
        }
        let ident = DevFnIdent::try_from(sig.ident.clone())?;
        let inputs = dev_inputs(&sig.inputs)?;
        let output = DevReturnType::try_from(&sig.output)?;
        Ok(DevSignature { ident, inputs, trailing_comma: sig.trailing_comma, output })
    }
}

/// Every input of a signature as a device function argument, or the
/// rejection of the first one that is not.
pub fn dev_inputs(args: &Vec<FnArgModel>) -> (r: Result<Vec<DevFnArg>, DevError>)
    requires
        inputs_check(args@) != Check::Unsupported,
    ensures
        r is Ok <==> inputs_check(args@) == Check::Pass,
        r matches Err(e) ==> inputs_check(args@) == Check::Fail(e),
        r matches Ok(v) ==> v@.len() == args@.len() && forall|i: int|
            0 <= i < v@.len() ==> #[trigger] v@[i].reproduces(args@[i]),
{
    let n = args.len();
    let mut out: Vec<DevFnArg> = Vec::new();
    let mut i: usize = 0;
    while i < n
        invariant
            i <= n,
            n == args@.len(),
            inputs_check(args@) != Check::Unsupported,
            inputs_check(args@.subrange(0, i as int)) == Check::Pass,
            out@.len() == i,
            forall|j: int| 0 <= j < i ==> #[trigger] out@[j].reproduces(args@[j]),
        decreases n - i,
    {
        proof {
            assert(args@.subrange(0, i + 1).drop_last() =~= args@.subrange(0, i as int));
            lemma_inputs_check_prefix(args@, i + 1);
        }
        let arg = DevFnArg::try_from(&args[i], i)?;
        out.push(arg);
        i = i + 1;
    }
    assert(args@.subrange(0, n as int) =~= args@);
    Ok(out)
}

/// Once a prefix of the arguments is not accepted, the whole list has that
/// outcome.
pub proof fn lemma_inputs_check_prefix(args: Seq<FnArgModel>, k: int)
    requires
        0 <= k <= args.len(),
    ensures
        inputs_check(args.subrange(0, k)) != Check::Pass ==> inputs_check(args)
            == inputs_check(args.subrange(0, k)),
    decreases args.len() - k,
{
    if k < args.len() {
        lemma_inputs_check_prefix(args, k + 1);
        assert(args.subrange(0, k + 1).drop_last() =~= args.subrange(0, k));
    } else {
        assert(args.subrange(0, k) =~= args);
    }
}

/// The check of a function item: it must carry no attributes, and its
/// signature must pass.
pub open spec fn item_fn_check(item: ItemFnModel) -> Check {
    if item.attrs != 0 {
        fail(Spot::Attrs, DevErrorKind::Attributes)
    } else {
        signature_check(item.sig)
    }
}

impl DevItemFn {
    /// This device function is the function written as `item`.
    pub open spec fn reproduces(&self, item: ItemFnModel) -> bool {
        &&& self.vis@ == item.vis@
        &&& self.block@ == item.block@
        &&& self.sig.reproduces(item.sig)
    }

    /// The device function written as `item`.
    pub fn try_from(item: ItemFnModel) -> (r: Result<DevItemFn, DevError>)
        requires
            item_fn_check(item) != Check::Unsupported,
        ensures
            r is Ok <==> item_fn_check(item) == Check::Pass,
            r matches Err(e) ==> item_fn_check(item) == Check::Fail(e),
            r matches Ok(f) ==> f.reproduces(item),
    {
        if item.attrs != 0 {
            return Err(DevError { at: Spot::Attrs, kind: DevErrorKind::Attributes });
        }
        let ItemFnModel { attrs: _, vis, sig, block } = item;
        let sig = DevSignature::try_from(sig)?;
        Ok(DevItemFn { vis, sig, block })
    }

    /// The name a device function is stored under.
    pub fn db_item_ident(&self) -> (r: String)
        ensures
            r@ == self.sig.ident.0@,
    {
        self.sig.ident.0.clone()
    }
}

/// The type of an argument is of a form that the rules do not handle: not a
/// path, or a path without segments and without a qualified self or leading
/// colon (those are rejected first).
pub fn arg_type_unhandled(ty: &TypeModel) -> (r: bool)
    ensures
        forall|i: usize| r == (#[trigger] arg_type_check(*ty, i) == Check::Unsupported),
{
    match ty {
        TypeModel::Path(p) => !p.qself && !p.leading_colon && p.segments.len() == 0,
        _ => true,
    }
}

/// The return type is of a form that the rules do not handle.
pub fn output_unhandled(output: &ReturnTypeModel) -> (r: bool)
    ensures
        r == (output_check(*output) == Check::Unsupported),
{
    match output {
        ReturnTypeModel::Default => false,
        ReturnTypeModel::Type(TypeModel::Path(p)) => !p.qself && !p.leading_colon
            && p.segments.len() == 0,
        ReturnTypeModel::Type(_) => true,
    }
}

/// The outcome of checking the first `k` arguments.
proof fn lemma_inputs_check_step(args: Seq<FnArgModel>, k: int)
    requires
        0 <= k < args.len(),
        inputs_check(args.subrange(0, k)) == Check::Pass,
    ensures
        inputs_check(args.subrange(0, k + 1)) == arg_check(args[k], k as usize),
{
    assert(args.subrange(0, k + 1).drop_last() =~= args.subrange(0, k));
}

/// The signature is of a form that the rules handle: checking it gives a
/// verdict.
pub fn signature_handled(sig: &SignatureModel) -> (r: bool)
    ensures
        r == (signature_check(*sig) != Check::Unsupported),
{
    if sig.constness || sig.asyncness || sig.unsafety || sig.abi || sig.generic_params != 0
        || sig.where_clause || sig.variadic {
        return true;
    }
    if DevFnIdent::try_from(sig.ident.clone()).is_err() {
        return true;
    }
    assert(ident_check(sig.ident@) is None);
    let n = sig.inputs.len();
    let mut i: usize = 0;
    while i < n
        invariant
            i <= n,
            n == sig.inputs@.len(),
            inputs_check(sig.inputs@.subrange(0, i as int)) == Check::Pass,
            !sig.constness && !sig.asyncness && !sig.unsafety && !sig.abi,
            sig.generic_params == 0 && !sig.where_clause && !sig.variadic,
            ident_check(sig.ident@) is None,
        decreases n - i,
    {
        proof {
            lemma_inputs_check_step(sig.inputs@, i as int);
            lemma_inputs_check_prefix(sig.inputs@, i + 1);
        }
        let unhandled = match &sig.inputs[i] {
            FnArgModel::Receiver => false,
            FnArgModel::Typed(t) => t.attrs == 0 && arg_type_unhandled(&t.ty),
        };
        if unhandled {
            assert(arg_check(sig.inputs@[i as int], i) == Check::Unsupported);
            return false;
        }
        if DevFnArg::try_from(&sig.inputs[i], i).is_err() {
            return true;
        }
        i = i + 1;
    }
    assert(sig.inputs@.subrange(0, n as int) =~= sig.inputs@);
    !output_unhandled(&sig.output)
}

impl DevItemFn {
    /// The function is of a form that the rules handle, so that `try_from`
    /// gives a verdict on it.
    pub fn is_handled(item: &ItemFnModel) -> (r: bool)
        ensures
            r == (item_fn_check(*item) != Check::Unsupported),
    {
        item.attrs != 0 || signature_handled(&item.sig)
    }
}

/// A device function carries no attributes and is not `const`, `async`,
/// `unsafe`, `extern "..."` or variadic: a function with any of them is
/// rejected for the first one in that order, at that part of the function.
pub proof fn law_device_fn_prohibitions(item: ItemFnModel)
    ensures
        item.attrs != 0 ==> item_fn_check(item) == fail(Spot::Attrs, DevErrorKind::Attributes),
        item.attrs == 0 && item.sig.constness ==> item_fn_check(item) == fail(
            Spot::Constness,
            DevErrorKind::Const,
        ),
        item.attrs == 0 && !item.sig.constness && item.sig.asyncness ==> item_fn_check(item)
            == fail(Spot::Asyncness, DevErrorKind::Async),
        item.attrs == 0 && !item.sig.constness && !item.sig.asyncness && item.sig.unsafety
            ==> item_fn_check(item) == fail(Spot::Unsafety, DevErrorKind::Unsafe),
        item.attrs == 0 && !item.sig.constness && !item.sig.asyncness && !item.sig.unsafety
            && item.sig.abi ==> item_fn_check(item) == fail(Spot::Abi, DevErrorKind::Abi),
        item.attrs == 0 && !item.sig.constness && !item.sig.asyncness && !item.sig.unsafety
            && !item.sig.abi && item.sig.generic_params == 0 && !item.sig.where_clause
            && item.sig.variadic ==> item_fn_check(item) == fail(Spot::Variadic, DevErrorKind::Variadic),
{
}

/// The names of the device types: `bool`, `f32`, `f64`, the sized integers
/// `i8` to `i64` and `u8` to `u64`, and `isize` and `usize`.
pub open spec fn is_device_type_name(s: Seq<char>) -> bool {
    ||| s == "bool"@ ||| s == "f32"@ ||| s == "f64"@
    ||| s == "i8"@ ||| s == "i16"@ ||| s == "i32"@ ||| s == "i64"@
    ||| s == "u8"@ ||| s == "u16"@ ||| s == "u32"@ ||| s == "u64"@
    ||| s == "isize"@ ||| s == "usize"@
}

/// Every device type name is recognized, in its family: `bool` is the
/// boolean, `f32` and `f64` the floats, and the eight sized integers with
/// `isize` and `usize` the integers; no other name is a device type.
pub proof fn law_device_type_names(s: Seq<char>)
    ensures
        dev_type_kind("bool"@) == Some(DevTypeKind::Bool),
        dev_type_kind("f32"@) == Some(DevTypeKind::Float),
        dev_type_kind("f64"@) == Some(DevTypeKind::Float),
        dev_type_kind("i8"@) == Some(DevTypeKind::SizedInteger),
        dev_type_kind("i16"@) == Some(DevTypeKind::SizedInteger),
        dev_type_kind("i32"@) == Some(DevTypeKind::SizedInteger),
        dev_type_kind("i64"@) == Some(DevTypeKind::SizedInteger),
        dev_type_kind("u8"@) == Some(DevTypeKind::SizedInteger),
        dev_type_kind("u16"@) == Some(DevTypeKind::SizedInteger),
        dev_type_kind("u32"@) == Some(DevTypeKind::SizedInteger),
        dev_type_kind("u64"@) == Some(DevTypeKind::SizedInteger),
        dev_type_kind("isize"@) == Some(DevTypeKind::SizedInteger),
        dev_type_kind("usize"@) == Some(DevTypeKind::SizedInteger),
        dev_type_kind(s) is Some <==> is_device_type_name(s),
{
    reveal_strlit("bool");
    reveal_strlit("f32");
    reveal_strlit("f64");
    reveal_strlit("i8");
    reveal_strlit("i16");
    reveal_strlit("i32");
    reveal_strlit("i64");
    reveal_strlit("u8");
    reveal_strlit("u16");
    reveal_strlit("u32");
    reveal_strlit("u64");
    reveal_strlit("isize");
    reveal_strlit("usize");
    assert("f32"@.len() != "isize"@.len() && "f32"@.len() != "usize"@.len());
    assert("f64"@.len() != "isize"@.len() && "f64"@.len() != "usize"@.len());
    assert("f32"@[0] != "bool"@[0] && "f64"@[0] != "bool"@[0]);
}

/// The rules for a device function's name, and nothing more: it is refused
/// for a leading underscore, else for a trailing underscore, else when heck's
/// snake case conversion changes it; any other name is accepted.
pub proof fn law_device_fn_name_rules(name: Seq<char>)
    ensures
        ident_check(name) is None <==> !(name.len() > 0 && name[0] == '_') && !(name.len() > 0
            && name.last() == '_') && heck_snake(name) == name,
        name.len() > 0 && name[0] == '_' ==> ident_check(name) == Some(DevErrorKind::LeadingUnderscore),
        !(name.len() > 0 && name[0] == '_') && name.len() > 0 && name.last() == '_' ==> ident_check(
            name,
        ) == Some(DevErrorKind::TrailingUnderscore),
        !(name.len() > 0 && name[0] == '_') && !(name.len() > 0 && name.last() == '_') && heck_snake(
            name,
        ) != name ==> ident_check(name) == Some(DevErrorKind::NotSnakeCase),
{
}

/// The type is written as one plain identifier naming a device type.
pub open spec fn names_device_type(ty: TypeModel) -> bool {
    ty matches TypeModel::Path(p) && !p.qself && !p.leading_colon && p.segments@.len() == 1
        && p.segments@[0].arguments == PathArgsModel::Plain && is_device_type_name(p.segments@[0].ident@)
}

/// A plain function of one argument from a device type to a device type is
/// a device function: without attributes, qualifiers, generics, a where
/// clause or variadics, with a name that the name rules accept, one typed
/// argument without attributes whose type is any device type, and any device
/// type as its return type, it passes every check.
pub proof fn law_unary_device_fn_accepted(item: ItemFnModel)
    requires
        item.attrs == 0,
        !item.sig.constness && !item.sig.asyncness && !item.sig.unsafety && !item.sig.abi,
        item.sig.generic_params == 0 && !item.sig.where_clause && !item.sig.variadic,
        !(item.sig.ident@.len() > 0 && item.sig.ident@[0] == '_'),
        !(item.sig.ident@.len() > 0 && item.sig.ident@.last() == '_'),
        heck_snake(item.sig.ident@) == item.sig.ident@,
        item.sig.inputs@.len() == 1,
        item.sig.inputs@[0] matches FnArgModel::Typed(p) && p.attrs == 0 && names_device_type(p.ty),
        item.sig.output matches ReturnTypeModel::Type(t) && names_device_type(t),
    ensures
        item_fn_check(item) == Check::Pass,
{
    let args = item.sig.inputs@;
    if let FnArgModel::Typed(p) = args[0] {
        if let TypeModel::Path(tp) = p.ty {
            law_device_type_names(tp.segments@[0].ident@);
        }
    }
    if let ReturnTypeModel::Type(t) = item.sig.output {
        if let TypeModel::Path(tp) = t {
            law_device_type_names(tp.segments@[0].ident@);
        }
    }
    assert(args.drop_last() =~= Seq::<FnArgModel>::empty());
    assert(inputs_check(args.drop_last()) == Check::Pass);
    assert(inputs_check(args) == arg_check(args[0], 0));
}

} // verus!
