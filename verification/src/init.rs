//! Init functions: device functions of one argument that fill a device slice
//! from a range of indices, and the names of the items generated for them.
use vstd::prelude::*;
use crate::case::{heck_upper_camel, to_upper_camel_case};
use crate::tag::{lemma_written_tag, tag_names, valid_tag_names, writes_tags, CrateTag};
use crate::tokens::{parse_punct, spec_crate_tag, spec_punct, ParseError, Tok};
use crate::dev_item_fn::{
    DevArgType, DevError, DevErrorKind, DevFnArg, DevFnIdent, DevItemFn, DevReturnType,
    DevSignature, DevType, Spot,
};

verus! {

/// The signature of an init function: exactly one argument.
#[derive(Debug, Clone)]
pub struct DevInitSignature {
    pub ident: DevFnIdent,
    pub input: DevFnArg,
    /// The argument is followed by a comma.
    pub comma: bool,
    pub output: DevReturnType,
}

/// An init function.
#[derive(Debug, Clone)]
pub struct DevInitFn {
    /// The token text of the visibility.
    pub vis: String,
    pub sig: DevInitSignature,
    /// The token text of the body.
    pub block: String,
}

/// The outcome of requiring exactly one input of a device signature: `None`
/// when there is exactly one, else where the rejection points.
pub open spec fn one_input_check(sig: DevSignature) -> Option<Spot> {
    if sig.inputs@.len() == 0 {
        Some(Spot::Ident)
    } else if sig.inputs@.len() == 1 {
        None
    } else {
        Some(Spot::SecondArg)
    }
}

impl DevInitSignature {
    /// The init signature made of a device signature with exactly one
    /// input; with none the rejection points at the name, with more at the
    /// second input.
    pub fn try_from(sig: DevSignature) -> (r: Result<DevInitSignature, DevError>)
        ensures
            r is Ok <==> one_input_check(sig) is None,
            r matches Err(e) ==> Some(e.at) == one_input_check(sig) && e.kind
                == DevErrorKind::ExpectedOneArgument,
            r matches Ok(s) ==> s.ident == sig.ident && s.input == sig.inputs@[0] && s.comma
                == sig.trailing_comma && s.output == sig.output,
    {
        let DevSignature { ident, inputs, trailing_comma, output } = sig;
        let mut inputs = inputs;
        if inputs.len() == 0 {
            return Err(DevError { at: Spot::Ident, kind: DevErrorKind::ExpectedOneArgument });
        }
        if inputs.len() > 1 {
            return Err(DevError { at: Spot::SecondArg, kind: DevErrorKind::ExpectedOneArgument });
        }
        let input = inputs.pop().unwrap();
        Ok(DevInitSignature { ident, input, comma: trailing_comma, output })
    }
}

impl DevInitFn {
    /// The init function made of a device function with exactly one input.
    pub fn try_from(value: DevItemFn) -> (r: Result<DevInitFn, DevError>)
        ensures
            r is Ok <==> one_input_check(value.sig) is None,
            r matches Err(e) ==> Some(e.at) == one_input_check(value.sig) && e.kind
                == DevErrorKind::ExpectedOneArgument,
            r matches Ok(f) ==> f.vis == value.vis && f.block == value.block && f.sig.ident
                == value.sig.ident && f.sig.input == value.sig.inputs@[0] && f.sig.comma
                == value.sig.trailing_comma && f.sig.output == value.sig.output,
    {
        let DevItemFn { vis, sig, block } = value;
        let sig = DevInitSignature::try_from(sig)?;
        Ok(DevInitFn { vis, sig, block })
    }

    /// The name of the init function.
    pub fn ident(&self) -> (r: &String)
        ensures
            r@ == self.sig.ident.0@,
    {
        &self.sig.ident.0
    }

    /// The type of its argument.
    pub fn input_type(&self) -> (r: &DevArgType)
        ensures
            *r == self.sig.input.ty,
    {
        &self.sig.input.ty
    }

    /// Its return type.
    pub fn output(&self) -> (r: &DevReturnType)
        ensures
            *r == self.sig.output,
    {
        &self.sig.output
    }

    /// The name the init function is stored under.
    pub fn db_item_ident(&self) -> (r: String)
        ensures
            r@ == self.sig.ident.0@,
    {
        self.sig.ident.0.clone()
    }

    /// The name of the launch trait: `__` followed by the function's name in
    /// upper camel case.
    pub fn launch_trait_ident(&self) -> (r: String)
        ensures
            r@ == "__"@ + heck_upper_camel(self.sig.ident.0@),
    {
        let camel = to_upper_camel_case(self.ident().as_str());
        String::from_str("__").concat(camel.as_str())
    }

    /// The name of the module that holds the launch trait: `__` followed by
    /// the function's name.
    pub fn launch_mod_ident(&self) -> (r: String)
        ensures
            r@ == "__"@ + self.sig.ident.0@,
    {
        String::from_str("__").concat(self.ident().as_str())
    }
}

/// The names that the generated init kernel is written with.
#[derive(Debug, Clone)]
pub struct InitKernel {
    /// `{name}_init_kernel`, the kernel entry point.
    pub kernel_ident: String,
    /// `{name}_init`, the method each thread calls on a union element.
    pub method_ident: String,
    /// The union the kernel works on.
    pub union_ident: String,
    /// The type the index is converted to before the call.
    pub input_type: DevArgType,
}

/// The names that the generated device method is written with.
#[derive(Debug, Clone)]
pub struct InitMethod {
    /// `{name}_init`, the method's name.
    pub method_ident: String,
    /// The init function that the method calls.
    pub init_ident: String,
    /// The type of the method's index argument.
    pub input_type: DevArgType,
}

/// The names that the generated launch trait is written with.
#[derive(Debug, Clone)]
pub struct LaunchTrait {
    pub mod_ident: String,
    pub trait_ident: String,
    /// The trait's launching method, named as the init function.
    pub method_ident: String,
}

/// What the generated launch implementation is written with.
#[derive(Debug, Clone)]
pub struct LaunchImpl {
    pub mod_ident: String,
    pub trait_ident: String,
    pub method_ident: String,
    /// The union the device slice is made of.
    pub union_ident: String,
    /// The type the init function returns.
    pub output_type: DevType,
    /// Where the compiled kernel is read from.
    pub ptx_path: String,
}

/// Where the compiled kernel of the crate tagged `tag` lies, below the
/// target directory `target_dir`.
pub open spec fn spec_ptx_path(target_dir: Seq<char>, tag: Seq<char>) -> Seq<char> {
    target_dir + "/spindle/map/"@ + tag + "/target/nvptx64-nvidia-cuda/target/release/kernel.ptx"@
}

impl DevInitFn {
    /// The names of the init kernel; it is generated for exactly one union,
    /// and the rejection of another number points at the function's name.
    pub fn kernel(&self, union_idents: &[String]) -> (r: Result<InitKernel, DevError>)
        requires
            self.sig.output is Type,
        ensures
            r is Ok <==> union_idents@.len() == 1,
            r matches Err(e) ==> e == (DevError { at: Spot::Ident, kind: DevErrorKind::ExpectedOneUnion }),
            r matches Ok(k) ==> {
                &&& k.kernel_ident@ == self.sig.ident.0@ + "_init_kernel"@
                &&& k.method_ident@ == self.sig.ident.0@ + "_init"@
                &&& k.union_ident@ == union_idents@[0]@
                &&& k.input_type == self.sig.input.ty
            },
    {
        if union_idents.len() != 1 {
            return Err(DevError { at: Spot::Ident, kind: DevErrorKind::ExpectedOneUnion });
        }
        let name = self.ident();
        let kernel_ident = name.clone().concat("_init_kernel");
        let method_ident = name.clone().concat("_init");
        Ok(
            InitKernel {
                kernel_ident,
                method_ident,
                union_ident: union_idents[0].clone(),
                input_type: self.sig.input.ty.duplicate(),
            },
        )
    }

    /// The names of the device method that stores the init function's value
    /// into a union element; generated for exactly one union.
    pub fn device_method(&self, union_idents: &[String]) -> (r: Result<InitMethod, DevError>)
        requires
            self.sig.output is Type,
        ensures
            r is Ok <==> union_idents@.len() == 1,
            r matches Err(e) ==> e == (DevError { at: Spot::Ident, kind: DevErrorKind::ExpectedOneUnion }),
            r matches Ok(m) ==> {
                &&& m.method_ident@ == self.sig.ident.0@ + "_init"@
                &&& m.init_ident@ == self.sig.ident.0@
                &&& m.input_type == self.sig.input.ty
            },
    {
        if union_idents.len() != 1 {
            return Err(DevError { at: Spot::Ident, kind: DevErrorKind::ExpectedOneUnion });
        }
        let name = self.ident();
        Ok(
            InitMethod {
                method_ident: name.clone().concat("_init"),
                init_ident: name.clone(),
                input_type: self.sig.input.ty.duplicate(),
            },
        )
    }

    /// The names of the launch trait.
    pub fn launch_trait(&self) -> (r: LaunchTrait)
        ensures
            r.mod_ident@ == "__"@ + self.sig.ident.0@,
            r.trait_ident@ == "__"@ + heck_upper_camel(self.sig.ident.0@),
            r.method_ident@ == self.sig.ident.0@,
    {
        LaunchTrait {
            mod_ident: self.launch_mod_ident(),
            trait_ident: self.launch_trait_ident(),
            method_ident: self.ident().clone(),
        }
    }

    /// What the launch implementation for the crate tagged `tag` is written
    /// with; `target_dir` is the build's target directory. It is generated for
    /// exactly one union and an init function that returns a single type.
    pub fn launch_impl(&self, tag: &str, target_dir: &str, union_idents: &[String]) -> (r: LaunchImpl)
        requires
            self.sig.output is Type,
            union_idents@.len() == 1,
        ensures
            r.mod_ident@ == "__"@ + self.sig.ident.0@,
            r.trait_ident@ == "__"@ + heck_upper_camel(self.sig.ident.0@),
            r.method_ident@ == self.sig.ident.0@,
            r.union_ident@ == union_idents@[0]@,
            r.output_type == self.sig.output->Type_0,
            r.ptx_path@ == spec_ptx_path(target_dir@, tag@),
    {
        let output_type = match &self.sig.output {
            DevReturnType::Type(t) => t.duplicate(),
            _ => {
                assert(false);
                DevType::Bool(String::new())
            },
        };
        let ptx_path = String::from_str(target_dir).concat("/spindle/map/").concat(tag).concat(
            "/target/nvptx64-nvidia-cuda/target/release/kernel.ptx",
        );
        LaunchImpl {
            mod_ident: self.launch_mod_ident(),
            trait_ident: self.launch_trait_ident(),
            method_ident: self.ident().clone(),
            union_ident: union_idents[0].clone(),
            output_type,
            ptx_path,
        }
    }
}

/// The arguments of the init attribute: one or more crate tags.
#[derive(Debug, PartialEq)]
pub struct Attrs {
    pub tags: Vec<CrateTag>,
}

/// The tags of `#a, #b, ..., #z` from position `pos` on, after the tags
/// `tags` already read: each further tag follows a comma, and one trailing
/// comma is allowed.
pub open spec fn spec_more_tags(toks: Seq<Tok>, pos: nat, tags: Seq<Seq<char>>) -> Result<
    Seq<Seq<char>>,
    ParseError,
>
    decreases toks.len() - pos,
{
    if pos >= toks.len() {
        Ok(tags)
    } else {
        match spec_punct(toks, pos, ',') {
            Err(e) => Err(e),
            Ok(after_comma) => if after_comma >= toks.len() {
                Ok(tags)
            } else {
                match spec_crate_tag(toks, after_comma) {
                    Err(e) => Err(e),
                    Ok((tag, next)) => spec_more_tags(toks, next, tags.push(tag)),
                }
            },
        }
    }
}

/// The tags of the init attribute's arguments `#a, #b, ..., #z`, with one
/// trailing comma allowed.
pub open spec fn spec_attrs(toks: Seq<Tok>) -> Result<Seq<Seq<char>>, ParseError> {
    match spec_crate_tag(toks, 0) {
        Err(e) => Err(e),
        Ok((tag, next)) => spec_more_tags(toks, next, seq![tag]),
    }
}

impl Attrs {
    /// Parses the init attribute's arguments.
    pub fn parse(toks: &Vec<Tok>) -> (r: Result<Attrs, ParseError>)
        ensures
            r is Ok <==> spec_attrs(toks@) is Ok,
            r matches Ok(a) ==> spec_attrs(toks@) == Ok::<Seq<Seq<char>>, ParseError>(
                tag_names(a.tags@),
            ),
            r matches Err(e) ==> spec_attrs(toks@) == Err::<Seq<Seq<char>>, ParseError>(e),
    {
        let (tag, mut pos) = CrateTag::parse(toks, 0)?;
        let mut tags: Vec<CrateTag> = Vec::new();
        tags.push(tag);
        assert(tag_names(tags@) =~= seq![tags@[0].name()]);
        while pos < toks.len()
            invariant
                pos <= toks@.len(),
                spec_attrs(toks@) == spec_more_tags(toks@, pos as nat, tag_names(tags@)),
            ensures
                spec_attrs(toks@) == Ok::<Seq<Seq<char>>, ParseError>(tag_names(tags@)),
            decreases toks@.len() - pos,
        {
            let after_comma = parse_punct(toks, pos, ',')?;
            if after_comma >= toks.len() {
                pos = after_comma;
                break;
            }
            let (tag, next) = CrateTag::parse(toks, after_comma)?;
            let ghost before = tags@;
            tags.push(tag);
            assert(tag_names(tags@) =~= tag_names(before).push(tag.name()));
            pos = next;
        }
        Ok(Attrs { tags })
    }
}

/// Reading tags written as `writes_tags` says, from the comma after the
/// `j`-th tag on, gives the remaining tags.
proof fn lemma_more_written_tags(toks: Seq<Tok>, names: Seq<Seq<char>>, trailing: bool, j: int)
    requires
        writes_tags(toks, names, trailing),
        valid_tag_names(names),
        1 <= j <= names.len(),
    ensures
        spec_more_tags(toks, (3 * j - 1) as nat, names.take(j)) == Ok::<
            Seq<Seq<char>>,
            ParseError,
        >(names),
    decreases names.len() - j,
{
    let pos = 3 * j - 1;
    if j == names.len() {
        assert(names.take(j) =~= names);
        if trailing {
            assert(pos % 3 == 2);
            assert(toks[pos] == Tok::Punct(','));
        }
    } else {
        assert(pos % 3 == 2);
        assert(toks[pos] == Tok::Punct(','));
        lemma_written_tag(toks, names, trailing, j);
        assert(names.take(j).push(names[j]) =~= names.take(j + 1));
        lemma_more_written_tags(toks, names, trailing, j + 1);
    }
}

/// The init attribute reads back the tags it lists: `#a, #b, ..., #z`, with
/// or without one trailing comma, where every name is lower snake case and
/// not a reserved word, gives exactly those names, in order.
pub proof fn law_init_attrs_read_listed_tags(toks: Seq<Tok>, names: Seq<Seq<char>>, trailing: bool)
    requires
        writes_tags(toks, names, trailing),
        valid_tag_names(names),
    ensures
        spec_attrs(toks) == Ok::<Seq<Seq<char>>, ParseError>(names),
{
    lemma_written_tag(toks, names, trailing, 0);
    assert(seq![names[0]] =~= names.take(1));
    lemma_more_written_tags(toks, names, trailing, 1);
}

} // verus!
