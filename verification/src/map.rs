//! Plain map functions: a function of one primitive input returning a
//! primitive, checked by the regulation rules, and the names of the items
//! generated for it.
use vstd::prelude::*;
use crate::{snake_to_camel, spec_snake_to_camel};
use crate::case::{LowerSnakeIdent, UpperCamelIdent};
use crate::primitives::_Primitive;
use crate::regulate::{
    ident_input, only_ident_inputs, spec_ident_return, EXPECTED_INPUT_ONE,
    EXPECTED_ONE_INPUT_PRIMITIVE, EXPECTED_RETURN_PRIMITIVE, UNEXPECTED_ABI, UNEXPECTED_ASYNC,
    UNEXPECTED_ATTRIBUTES, UNEXPECTED_CONST, UNEXPECTED_GENERICS, UNEXPECTED_SELF,
    UNEXPECTED_VARIADICS, UNEXPECTED_WHERE_CLAUSE,
};
use crate::syntax::{FnArgModel, ItemFnModel, PatTypeModel, SignatureModel};
use crate::text::str_eq;
use crate::tokens::Tok;

verus! {

/// The input and output primitive of one lifted function.
#[derive(Debug, Clone)]
pub struct InOut {
    pub input: Option<_Primitive>,
    pub output: Option<_Primitive>,
}

/// A map function: the function item and its inputs and outputs.
#[derive(Debug, Clone)]
pub struct MapFn {
    pub item_fn: ItemFnModel,
    pub in_outs: Vec<InOut>,
}

/// The arguments of the plain map attribute: there may be none.
#[derive(Clone, Debug)]
pub struct MapAttrs {
    pub _tags: Vec<String>,
}

/// The primitive types that map functions take and return.
pub open spec fn is_map_primitive(s: Seq<char>) -> bool {
    ||| s == "bool"@ ||| s == "isize"@ ||| s == "usize"@ ||| s == "f32"@ ||| s == "f64"@
    ||| s == "i8"@ ||| s == "u8"@ ||| s == "i16"@ ||| s == "u16"@ ||| s == "i32"@
    ||| s == "u32"@ ||| s == "i64"@ ||| s == "u64"@
}

/// Whether `s` names a primitive type that map functions take and return.
pub fn map_primitive(s: &str) -> (r: bool)
    ensures
        r == is_map_primitive(s@),
{
    str_eq(s, "bool") || str_eq(s, "isize") || str_eq(s, "usize") || str_eq(s, "f32") || str_eq(
        s,
        "f64",
    ) || str_eq(s, "i8") || str_eq(s, "u8") || str_eq(s, "i16") || str_eq(s, "u16") || str_eq(
        s,
        "i32",
    ) || str_eq(s, "u32") || str_eq(s, "i64") || str_eq(s, "u64")
}

/// The item-level rules: no attributes, no generics, no where clause.
pub open spec fn item_rule(item: ItemFnModel) -> Option<&'static str> {
    if item.attrs != 0 {
        Some(UNEXPECTED_ATTRIBUTES)
    } else if item.sig.generic_params != 0 {
        Some(UNEXPECTED_GENERICS)
    } else if item.sig.where_clause {
        Some(UNEXPECTED_WHERE_CLAUSE)
    } else {
        None
    }
}

/// The signature-level rules: not const, not async, no ABI, no generics, not
/// variadic, no receiver; then a return type that is a plain identifier.
pub open spec fn signature_rule(sig: SignatureModel) -> Option<&'static str> {
    if sig.constness {
        Some(UNEXPECTED_CONST)
    } else if sig.asyncness {
        Some(UNEXPECTED_ASYNC)
    } else if sig.abi {
        Some(UNEXPECTED_ABI)
    } else if sig.generic_params != 0 {
        Some(UNEXPECTED_GENERICS)
    } else if sig.variadic {
        Some(UNEXPECTED_VARIADICS)
    } else if exists|i: int| 0 <= i < sig.inputs@.len() && #[trigger] sig.inputs@[i] is Receiver {
        Some(UNEXPECTED_SELF)
    } else if spec_ident_return(sig.output) is Err {
        Some(spec_ident_return(sig.output)->Err_0)
    } else {
        None
    }
}

/// The type name of a typed argument written as a plain identifier.
pub open spec fn arg_ident(arg: FnArgModel) -> Result<Seq<char>, &'static str> {
    match arg {
        FnArgModel::Typed(p) => ident_input(p),
        FnArgModel::Receiver => Err(UNEXPECTED_SELF),
    }
}

/// The message of the first argument whose type is not a plain identifier.
pub open spec fn first_arg_error(args: Seq<FnArgModel>) -> Option<&'static str>
    decreases args.len(),
{
    if args.len() == 0 {
        None
    } else if first_arg_error(args.drop_last()) is Some {
        first_arg_error(args.drop_last())
    } else if arg_ident(args.last()) is Err {
        Some(arg_ident(args.last())->Err_0)
    } else {
        None
    }
}

/// The message a map function is rejected with, or `None`: the item and
/// signature rules, then every input's type must be a plain identifier, there
/// must be an input, and the first input's type and the return type must be
/// map primitives.
pub open spec fn map_fn_rule(item: ItemFnModel) -> Option<&'static str> {
    let sig = item.sig;
    if item_rule(item) is Some {
        item_rule(item)
    } else if signature_rule(sig) is Some {
        signature_rule(sig)
    } else if first_arg_error(sig.inputs@) is Some {
        first_arg_error(sig.inputs@)
    } else if sig.inputs@.len() == 0 {
        Some(EXPECTED_INPUT_ONE)
    } else if !is_map_primitive(arg_ident(sig.inputs@[0])->Ok_0) {
        Some(EXPECTED_ONE_INPUT_PRIMITIVE)
    } else if !is_map_primitive(spec_ident_return(sig.output)->Ok_0) {
        Some(EXPECTED_RETURN_PRIMITIVE)
    } else {
        None
    }
}

/// When every argument before `i` is a plain identifier and the `i`-th is
/// not, the first error is the `i`-th's.
pub proof fn lemma_first_arg_error(args: Seq<FnArgModel>, i: int)
    requires
        0 <= i < args.len(),
        forall|j: int| 0 <= j < i ==> #[trigger] arg_ident(args[j]) is Ok,
        arg_ident(args[i]) is Err,
    ensures
        first_arg_error(args) == Some(arg_ident(args[i])->Err_0),
    decreases args.len(),
{
    if i < args.len() - 1 {
        let prefix = args.drop_last();
        assert forall|j: int| 0 <= j < i implies #[trigger] arg_ident(prefix[j]) is Ok by {
            assert(prefix[j] == args[j]);
        }
        assert(prefix[i] == args[i]);
        lemma_first_arg_error(prefix, i);
    } else {
        lemma_no_arg_error(args.drop_last());
    }
}

/// When every argument is a plain identifier there is no first error.
pub proof fn lemma_no_arg_error(args: Seq<FnArgModel>)
    requires
        forall|j: int| 0 <= j < args.len() ==> #[trigger] arg_ident(args[j]) is Ok,
    ensures
        first_arg_error(args) is None,
    decreases args.len(),
{
    if args.len() > 0 {
        let prefix = args.drop_last();
        assert forall|j: int| 0 <= j < prefix.len() implies #[trigger] arg_ident(prefix[j]) is Ok by {
            assert(prefix[j] == args[j]);
        }
        lemma_no_arg_error(prefix);
        assert(arg_ident(args[args.len() - 1]) is Ok);
    }
}

/// Applies the item-level rules, handing the item back when they hold.
pub fn parse_item_fn(item_fn: ItemFnModel) -> (r: Result<ItemFnModel, &'static str>)
    ensures
        r is Ok <==> item_rule(item_fn) is None,
        r matches Ok(x) ==> x == item_fn,
        r matches Err(m) ==> item_rule(item_fn) == Some(m),
{
    item_fn.no_attributes()?.no_generics()?.no_where_clause()
}

/// Applies the signature-level rules, handing the signature back with the
/// name of its return type when they hold.
pub fn parse_signature(sig: SignatureModel) -> (r: Result<(SignatureModel, String), &'static str>)
    ensures
        r is Ok <==> signature_rule(sig) is None,
        r matches Ok((x, ret)) ==> x == sig && spec_ident_return(sig.output) == Ok::<
            Seq<char>,
            &'static str,
        >(ret@),
        r matches Err(m) ==> signature_rule(sig) == Some(m),
{
    let sig = sig.no_const()?.no_async()?.no_abi()?.no_generics()?.no_variadic()?;
    match sig.only_typed_inputs() {
        Ok(_) => {},
        Err(m) => {
            return Err(m);
        },
    }
    let return_type = sig.output.ident_return()?;
    Ok((sig, return_type))
}

/// The type name of the first input, when every input's type is a plain
/// identifier and there is at least one input.
pub fn parse_pat_types(pat_types: &Vec<&PatTypeModel>) -> (r: Result<String, &'static str>)
    ensures
        r matches Ok(name) ==> pat_types@.len() > 0 && ident_input(*pat_types@[0]) == Ok::<
            Seq<char>,
            &'static str,
        >(name@) && forall|i: int| 0 <= i < pat_types@.len() ==> ident_input(
            *#[trigger] pat_types@[i],
        ) is Ok,
        r matches Err(m) ==> (exists|i: int|
            0 <= i < pat_types@.len() && ident_input(*#[trigger] pat_types@[i]) == Err::<
                Seq<char>,
                &'static str,
            >(m) && forall|j: int| 0 <= j < i ==> ident_input(*pat_types@[j]) is Ok) || (
        pat_types@.len() == 0 && m == EXPECTED_INPUT_ONE),
{
    let names = only_ident_inputs(pat_types)?;
    if names.len() == 0 {
        return Err(EXPECTED_INPUT_ONE);
    }
    Ok(names[0].clone())
}

impl MapFn {
    /// Checks a function against the map rules; on success the map function
    /// holds the item unchanged and one input/output pair: the first input's
    /// type and the return type.
    pub fn parse(item_fn: ItemFnModel) -> (r: Result<MapFn, &'static str>)
        ensures
            r is Ok <==> map_fn_rule(item_fn) is None,
            r matches Err(m) ==> map_fn_rule(item_fn) == Some(m),
            r matches Ok(f) ==> {
                &&& f.item_fn == item_fn
                &&& f.in_outs@.len() == 1
                &&& f.in_outs@[0].input matches Some(p) && p.name() == arg_ident(
                    item_fn.sig.inputs@[0],
                )->Ok_0
                &&& f.in_outs@[0].output matches Some(p) && p.name() == spec_ident_return(
                    item_fn.sig.output,
                )->Ok_0
            },
    {
        let ghost original = item_fn;
        let checked = parse_item_fn(item_fn)?;
        let ItemFnModel { attrs, vis, sig, block } = checked;
        let (sig, return_ident) = parse_signature(sig)?;
        let typed = match sig.only_typed_inputs() {
            Ok(t) => t,
            Err(m) => {
                assert(false);
                return Err(m);
            },
        };
        let input_ident = match parse_pat_types(&typed) {
            Ok(name) => name,
            Err(m) => {
                proof {
                    if typed@.len() == 0 {
                        assert(sig.inputs@.len() == 0);
                        lemma_no_arg_error(sig.inputs@);
                    } else {
                        let i = choose|i: int|
                            0 <= i < typed@.len() && ident_input(*#[trigger] typed@[i]) == Err::<
                                Seq<char>,
                                &'static str,
                            >(m) && forall|j: int| 0 <= j < i ==> ident_input(*typed@[j]) is Ok;
                        assert forall|j: int| 0 <= j < i implies #[trigger] arg_ident(
                            sig.inputs@[j],
                        ) is Ok by {
                            assert(sig.inputs@[j] == FnArgModel::Typed(*typed@[j]));
                        }
                        assert(sig.inputs@[i] == FnArgModel::Typed(*typed@[i]));
                        lemma_first_arg_error(sig.inputs@, i);
                    }
                }
                return Err(m);
            },
        };
        proof {
            assert forall|j: int| 0 <= j < sig.inputs@.len() implies #[trigger] arg_ident(
                sig.inputs@[j],
            ) is Ok by {
                assert(sig.inputs@[j] == FnArgModel::Typed(*typed@[j]));
            }
            lemma_no_arg_error(sig.inputs@);
            assert(sig.inputs@[0] == FnArgModel::Typed(*typed@[0]));
        }
        if !map_primitive(input_ident.as_str()) {
            return Err(EXPECTED_ONE_INPUT_PRIMITIVE);
        }
        if !map_primitive(return_ident.as_str()) {
            return Err(EXPECTED_RETURN_PRIMITIVE);
        }
        let input = _Primitive { ident: LowerSnakeIdent(input_ident) };
        let output = _Primitive { ident: LowerSnakeIdent(return_ident) };
        let mut in_outs: Vec<InOut> = Vec::new();
        in_outs.push(InOut { input: Some(input), output: Some(output) });
        Ok(MapFn { item_fn: ItemFnModel { attrs, vis, sig, block }, in_outs })
    }
}

/// The names the trait generated in the user's crate is written with.
#[derive(Debug, Clone)]
pub struct MapTrait {
    /// `__{name}`: the module that hides the trait.
    pub mod_ident: String,
    /// `__{Name}`: the trait, the name in upper camel case.
    pub trait_ident: String,
    /// The trait's method, named as the map function.
    pub method_ident: String,
    /// `{name}_kernel`: the kernel the method launches.
    pub kernel_name: String,
    /// The identifier the map is stored under.
    pub uuid: String,
}

/// The names the method generated on the union in the device crate is
/// written with. The method's body, written from a template outside the
/// library, calls the device function `foo` whatever the map is named, as
/// the generator has always written it; only the method's own name follows
/// the map.
#[derive(Debug, Clone)]
pub struct PtxMethod {
    pub union_ident: String,
    pub method_ident: String,
}

/// The names the kernel generated in the device crate is written with. The
/// kernel's body, written from a template outside the library, calls the
/// union's method `foo` whatever the map is named, as the generator has
/// always written it; only the kernel's own name follows the map.
#[derive(Debug, Clone)]
pub struct PtxKernel {
    /// `{name}_kernel`
    pub kernel_ident: String,
    pub union_ident: String,
}

impl MapFn {
    /// The map function's name.
    pub open spec fn name(&self) -> Seq<char> {
        self.item_fn.sig.ident@
    }

    /// The names of the trait generated in the user's crate; `uuid` is the
    /// identifier the map is stored under.
    pub fn user_crate_trait(&self, uuid: &str) -> (r: MapTrait)
        ensures
            r.mod_ident@ == "__"@ + self.name(),
            r.trait_ident@ == "__"@ + spec_snake_to_camel(self.name()),
            r.method_ident@ == self.name(),
            r.kernel_name@ == self.name() + "_kernel"@,
            r.uuid@ == uuid@,
    {
        let name = self.item_fn.sig.ident.as_str();
        let camel = snake_to_camel(name);
        MapTrait {
            mod_ident: String::from_str("__").concat(name),
            trait_ident: String::from_str("__").concat(camel.as_str()),
            method_ident: String::from_str(name),
            kernel_name: String::from_str(name).concat("_kernel"),
            uuid: String::from_str(uuid),
        }
    }

    /// The names of the method generated on the union `u`.
    pub fn ptx_crate_method(&self, u: &UpperCamelIdent) -> (r: PtxMethod)
        ensures
            r.union_ident@ == u.0@,
            r.method_ident@ == self.name(),
    {
        PtxMethod { union_ident: u.0.clone(), method_ident: self.item_fn.sig.ident.clone() }
    }

    /// The names of the kernel generated for the union `u`.
    pub fn ptx_crate_kernel(&self, u: &UpperCamelIdent) -> (r: PtxKernel)
        ensures
            r.kernel_ident@ == self.name() + "_kernel"@,
            r.union_ident@ == u.0@,
    {
        PtxKernel {
            kernel_ident: self.item_fn.sig.ident.clone().concat("_kernel"),
            union_ident: u.0.clone(),
        }
    }
}

impl MapAttrs {
    /// The plain map attribute takes no arguments: empty input gives no tags,
    /// anything else is rejected.
    pub fn parse(toks: &Vec<Tok>) -> (r: Result<MapAttrs, &'static str>)
        ensures
            r is Ok <==> toks@.len() == 0,
            r matches Ok(a) ==> a._tags@.len() == 0,
            r matches Err(m) ==> m == UNEXPECTED_ATTRIBUTES,
    {
        if toks.len() == 0 {
            Ok(MapAttrs { _tags: Vec::new() })
        } else {
            Err(UNEXPECTED_ATTRIBUTES)
        }
    }
}

/// Map functions take and return `bool`, `f32`, `f64`, the integers `i8` to
/// `i64` and `u8` to `u64`, `isize` and `usize`.
pub proof fn law_map_primitives()
    ensures
        is_map_primitive("bool"@),
        is_map_primitive("isize"@),
        is_map_primitive("usize"@),
        is_map_primitive("f32"@),
        is_map_primitive("f64"@),
        is_map_primitive("i8"@),
        is_map_primitive("u8"@),
        is_map_primitive("i16"@),
        is_map_primitive("u16"@),
        is_map_primitive("i32"@),
        is_map_primitive("u32"@),
        is_map_primitive("i64"@),
        is_map_primitive("u64"@),
{
}

} // verus!
