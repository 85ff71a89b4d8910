//! Rules that plain functions must follow to be lifted, each reported with a
//! short message.
use vstd::prelude::*;
use crate::{snake_to_camel, spec_snake_to_camel};
use crate::syntax::{FnArgModel, ItemFnModel, PatTypeModel, ReturnTypeModel, SignatureModel, TypeModel};

verus! {

pub const UNEXPECTED_ATTRIBUTES: &'static str = "no attributes";
pub const UNEXPECTED_GENERICS: &'static str = "no generics";
pub const UNEXPECTED_WHERE_CLAUSE: &'static str = "no where clauses";
pub const SNAKE_NAME_HEAD: &'static str = "lower snake case w/ at most one leading _ (must be followed by a letter)";
pub const SNAKE_NAME_TAIL: &'static str = "lower snake case w/ no trailing _";
pub const UNEXPECTED_CONST: &'static str = "unexpected const token";
pub const UNEXPECTED_ASYNC: &'static str = "unexpected async token";
pub const UNEXPECTED_ABI: &'static str = "unexpected abi tokens";
pub const UNEXPECTED_VARIADICS: &'static str = "unexpected variadics";
pub const UNEXPECTED_SELF: &'static str = "unexpected self -- methods not supported";
pub const EXPECTED_INPUT_ONE: &'static str = "expected exactly one input";
pub const EXPECTED_INPUTS_INDENT: &'static str = "expected only explicit named types as inputs";
pub const EXPECTED_ONE_INPUT_PRIMITIVE: &'static str = "expected exactly one input";
pub const EXPECTED_ONE_INPUT_INTEGER: &'static str = "expected exactly one integer input";
pub const EXPECTED_RETURN_IDENT: &'static str = "expected an ident return type";
pub const UNEXPECTED_RETURN: &'static str = "expected no return type";
pub const EXPECTED_RETURN_PRIMITIVE: &'static str = "expeected a primitive return (i32, usize, f64, etc.)";
pub const ARRAYS_SOON: &'static str = "arrays will be soon!";
pub const REFERENCES_SOON: &'static str = "references will be soon!";
pub const TUPLES_SOON: &'static str = "tuples will be soon!";
pub const UNSUPPORTED_RETURN: &'static str = "unsupported return type -- suggestions welcome at ";

impl ItemFnModel {
    /// The item, if it carries no attributes.
    pub fn no_attributes(self) -> (r: Result<ItemFnModel, &'static str>)
        ensures
            r is Ok <==> self.attrs == 0,
            r matches Ok(x) ==> x == self,
            r matches Err(m) ==> m == UNEXPECTED_ATTRIBUTES,
    {
        if self.attrs != 0 {
            Err(UNEXPECTED_ATTRIBUTES)
        } else {
            Ok(self)
        }
    }

    /// The item, if it has no generic parameters.
    pub fn no_generics(self) -> (r: Result<ItemFnModel, &'static str>)
        ensures
            r is Ok <==> self.sig.generic_params == 0,
            r matches Ok(x) ==> x == self,
            r matches Err(m) ==> m == UNEXPECTED_GENERICS,
    {
        if self.sig.generic_params != 0 {
            Err(UNEXPECTED_GENERICS)
        } else {
            Ok(self)
        }
    }

    /// The item, if it has no where clause.
    pub fn no_where_clause(self) -> (r: Result<ItemFnModel, &'static str>)
        ensures
            r is Ok <==> !self.sig.where_clause,
            r matches Ok(x) ==> x == self,
            r matches Err(m) ==> m == UNEXPECTED_WHERE_CLAUSE,
    {
        if self.sig.where_clause {
            Err(UNEXPECTED_WHERE_CLAUSE)
        } else {
            Ok(self)
        }
    }
}

impl SignatureModel {
    /// The signature, if it is not `const`.
    pub fn no_const(self) -> (r: Result<SignatureModel, &'static str>)
        ensures
            r is Ok <==> !self.constness,
            r matches Ok(x) ==> x == self,
            r matches Err(m) ==> m == UNEXPECTED_CONST,
    {
        if self.constness {
            Err(UNEXPECTED_CONST)
        } else {
            Ok(self)
        }
    }

    /// The signature, if it is not `async`.
    pub fn no_async(self) -> (r: Result<SignatureModel, &'static str>)
        ensures
            r is Ok <==> !self.asyncness,
            r matches Ok(x) ==> x == self,
            r matches Err(m) ==> m == UNEXPECTED_ASYNC,
    {
        if self.asyncness {
            Err(UNEXPECTED_ASYNC)
        } else {
            Ok(self)
        }
    }

    /// The signature, if it names no ABI.
    pub fn no_abi(self) -> (r: Result<SignatureModel, &'static str>)
        ensures
            r is Ok <==> !self.abi,
            r matches Ok(x) ==> x == self,
            r matches Err(m) ==> m == UNEXPECTED_ABI,
    {
        if self.abi {
            Err(UNEXPECTED_ABI)
        } else {
            Ok(self)
        }
    }

    /// The signature, if it has no generic parameters.
    pub fn no_generics(self) -> (r: Result<SignatureModel, &'static str>)
        ensures
            r is Ok <==> self.generic_params == 0,
            r matches Ok(x) ==> x == self,
            r matches Err(m) ==> m == UNEXPECTED_GENERICS,
    {
        if self.generic_params != 0 {
            Err(UNEXPECTED_GENERICS)
        } else {
            Ok(self)
        }
    }

    /// The signature, if it is not variadic.
    pub fn no_variadic(self) -> (r: Result<SignatureModel, &'static str>)
        ensures
            r is Ok <==> !self.variadic,
            r matches Ok(x) ==> x == self,
            r matches Err(m) ==> m == UNEXPECTED_VARIADICS,
    {
        if self.variadic {
            Err(UNEXPECTED_VARIADICS)
        } else {
            Ok(self)
        }
    }

    /// The typed inputs, in order, if there is no `self` receiver.
    pub fn only_typed_inputs(&self) -> (r: Result<Vec<&PatTypeModel>, &'static str>)
        ensures
            r is Ok <==> forall|i: int| 0 <= i < self.inputs@.len() ==> #[trigger] self.inputs@[i] is Typed,
            r matches Ok(v) ==> v@.len() == self.inputs@.len() && forall|i: int|
                0 <= i < v@.len() ==> self.inputs@[i] == FnArgModel::Typed(*#[trigger] v@[i]),
            r matches Err(m) ==> m == UNEXPECTED_SELF,
    {
        let mut out: Vec<&PatTypeModel> = Vec::new();
        let mut i: usize = 0;
        while i < self.inputs.len()
            invariant
                i <= self.inputs@.len(),
                out@.len() == i,
                forall|j: int| 0 <= j < i ==> self.inputs@[j] == FnArgModel::Typed(*#[trigger] out@[j]),
            decreases self.inputs@.len() - i,
        {
            match &self.inputs[i] {
                FnArgModel::Receiver => {
                    return Err(UNEXPECTED_SELF);
                },
                FnArgModel::Typed(t) => {
                    out.push(t);
                },
            }
            i = i + 1;
        }
        assert forall|j: int| 0 <= j < self.inputs@.len() implies #[trigger] self.inputs@[j] is Typed by {
            assert(self.inputs@[j] == FnArgModel::Typed(*out@[j]));
        }
        Ok(out)
    }
}

/// The type name of a typed input, if it is written as a plain identifier
/// (no attributes, a path without qualified self, one segment without
/// arguments); otherwise the message.
pub open spec fn ident_input(p: PatTypeModel) -> Result<Seq<char>, &'static str> {
    if p.attrs != 0 {
        Err(UNEXPECTED_ATTRIBUTES)
    } else {
        match p.ty {
            TypeModel::Path(path) => if path.qself {
                Err(EXPECTED_INPUTS_INDENT)
            } else {
                match path.spec_get_ident() {
                    Some(name) => Ok(name),
                    None => Err(EXPECTED_INPUTS_INDENT),
                }
            },
            _ => Err(EXPECTED_INPUTS_INDENT),
        }
    }
}

/// The type name of a typed input written as a plain identifier.
pub fn ident_input_of(p: &PatTypeModel) -> (r: Result<String, &'static str>)
    ensures
        r is Ok <==> ident_input(*p) is Ok,
        r matches Ok(name) ==> ident_input(*p) == Ok::<Seq<char>, &'static str>(name@),
        r matches Err(m) ==> ident_input(*p) == Err::<Seq<char>, &'static str>(m),
{
    if p.attrs != 0 {
        return Err(UNEXPECTED_ATTRIBUTES);
    }
    match &p.ty {
        TypeModel::Path(path) => {
            if path.qself {
                return Err(EXPECTED_INPUTS_INDENT);
            }
            match path.get_ident() {
                Some(name) => Ok(name),
                None => Err(EXPECTED_INPUTS_INDENT),
            }
        },
        _ => Err(EXPECTED_INPUTS_INDENT),
    }
}

/// The list holds exactly one input.
pub fn exactly_one_input(inputs: Vec<PatTypeModel>) -> (r: Result<Vec<PatTypeModel>, &'static str>)
    ensures
        r is Ok <==> inputs@.len() == 1,
        r matches Ok(x) ==> x == inputs,
        r matches Err(m) ==> m == EXPECTED_ONE_INPUT_INTEGER,
{
    if inputs.len() == 1 {
        Ok(inputs)
    } else {
        Err(EXPECTED_ONE_INPUT_INTEGER)
    }
}

/// The type names of the inputs, in order, if every input's type is a plain
/// identifier; otherwise the message of the first that is not.
pub fn only_ident_inputs(inputs: &Vec<&PatTypeModel>) -> (r: Result<Vec<String>, &'static str>)
    ensures
        r is Ok <==> forall|i: int| 0 <= i < inputs@.len() ==> ident_input(*#[trigger] inputs@[i]) is Ok,
        r matches Ok(v) ==> v@.len() == inputs@.len() && forall|i: int|
            0 <= i < v@.len() ==> ident_input(*inputs@[i]) == Ok::<Seq<char>, &'static str>(
                #[trigger] v@[i]@,
            ),
        r matches Err(m) ==> exists|i: int|
            0 <= i < inputs@.len() && ident_input(*#[trigger] inputs@[i]) == Err::<
                Seq<char>,
                &'static str,
            >(m) && forall|j: int| 0 <= j < i ==> ident_input(*inputs@[j]) is Ok,
{
    let mut out: Vec<String> = Vec::new();
    let mut i: usize = 0;
    while i < inputs.len()
        invariant
            i <= inputs@.len(),
            out@.len() == i,
            forall|j: int|
                0 <= j < i ==> ident_input(*inputs@[j]) == Ok::<Seq<char>, &'static str>(
                    #[trigger] out@[j]@,
                ),
        decreases inputs@.len() - i,
    {
        let name = match ident_input_of(inputs[i]) {
            Ok(name) => name,
            Err(m) => {
                assert(ident_input(*inputs@[i as int]) == Err::<Seq<char>, &'static str>(m));
                assert forall|j: int| 0 <= j < i implies ident_input(*inputs@[j]) is Ok by {
                    assert(ident_input(*inputs@[j]) == Ok::<Seq<char>, &'static str>(out@[j]@));
                }
                return Err(m);
            },
        };
        out.push(name);
        i = i + 1;
    }
    assert forall|j: int| 0 <= j < inputs@.len() implies ident_input(*#[trigger] inputs@[j]) is Ok by {
        assert(ident_input(*inputs@[j]) == Ok::<Seq<char>, &'static str>(out@[j]@));
    }
    Ok(out)
}

/// The return type's name, if it is written as a plain identifier; otherwise
/// the message for its form.
pub open spec fn spec_ident_return(output: ReturnTypeModel) -> Result<Seq<char>, &'static str> {
    match output {
        ReturnTypeModel::Default => Err(EXPECTED_RETURN_IDENT),
        ReturnTypeModel::Type(ty) => match ty {
            TypeModel::Array => Err(ARRAYS_SOON),
            TypeModel::Path(path) => if path.qself {
                Err(EXPECTED_INPUTS_INDENT)
            } else {
                match path.spec_get_ident() {
                    Some(name) => Ok(name),
                    None => Err(EXPECTED_INPUTS_INDENT),
                }
            },
            TypeModel::Reference => Err(REFERENCES_SOON),
            TypeModel::Tuple => Err(TUPLES_SOON),
            TypeModel::Other => Err(UNSUPPORTED_RETURN),
        },
    }
}

impl ReturnTypeModel {
    /// The return type's name, if it is a plain identifier.
    pub fn ident_return(&self) -> (r: Result<String, &'static str>)
        ensures
            r is Ok <==> spec_ident_return(*self) is Ok,
            r matches Ok(name) ==> spec_ident_return(*self) == Ok::<Seq<char>, &'static str>(name@),
            r matches Err(m) ==> spec_ident_return(*self) == Err::<Seq<char>, &'static str>(m),
    {
        match self {
            ReturnTypeModel::Default => Err(EXPECTED_RETURN_IDENT),
            ReturnTypeModel::Type(ty) => match ty {
                TypeModel::Array => Err(ARRAYS_SOON),
                TypeModel::Path(path) => {
                    if path.qself {
                        return Err(EXPECTED_INPUTS_INDENT);
                    }
                    match path.get_ident() {
                        Some(name) => Ok(name),
                        None => Err(EXPECTED_INPUTS_INDENT),
                    }
                },
                TypeModel::Reference => Err(REFERENCES_SOON),
                TypeModel::Tuple => Err(TUPLES_SOON),
                TypeModel::Other => Err(UNSUPPORTED_RETURN),
            },
        }
    }

    /// The return type, if there is none.
    pub fn no_return(self) -> (r: Result<ReturnTypeModel, &'static str>)
        ensures
            r is Ok <==> self is Default,
            r matches Ok(x) ==> x == self,
            r matches Err(m) ==> m == UNEXPECTED_RETURN,
    {
        match self {
            ReturnTypeModel::Default => Ok(self),
            _ => Err(UNEXPECTED_RETURN),
        }
    }
}

/// The name, if it does not begin with two underscores.
pub fn at_most_one_leading_underscore(name: String) -> (r: Result<String, &'static str>)
    ensures
        r is Ok <==> !(name@.len() >= 2 && name@[0] == '_' && name@[1] == '_'),
        r matches Ok(x) ==> x == name,
        r matches Err(m) ==> m == SNAKE_NAME_HEAD,
{
    let n = name.as_str().unicode_len();
    if n >= 2 && name.as_str().get_char(0) == '_' && name.as_str().get_char(1) == '_' {
        return Err(SNAKE_NAME_HEAD);
    }
    Ok(name)
}

/// The name, if it does not end with an underscore.
pub fn no_trailing_underscores(name: String) -> (r: Result<String, &'static str>)
    ensures
        r is Ok <==> !(name@.len() >= 1 && name@.last() == '_'),
        r matches Ok(x) ==> x == name,
        r matches Err(m) ==> m == SNAKE_NAME_TAIL,
{
    let n = name.as_str().unicode_len();
    if n >= 1 && name.as_str().get_char(n - 1) == '_' {
        return Err(SNAKE_NAME_TAIL);
    }
    Ok(name)
}

/// The name together with its upper camel case form.
pub fn trimmed_lower_snake_to_trimmed_upper_camel(name: String) -> (r: Result<
    (String, String),
    &'static str,
>)
    ensures
        r matches Ok((same, camel)) ==> same == name && camel@ == spec_snake_to_camel(name@),
        r is Ok,
{
    let camel = snake_to_camel(name.as_str());
    Ok((name, camel))
}

} // verus!
