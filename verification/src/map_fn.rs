//! Map functions: device functions of one device-typed argument that are
//! lifted to work element-wise on device slices.
use vstd::prelude::*;
use crate::case::PrimitiveIdent;
use crate::dev_item_fn::{DevArgType, DevError, DevErrorKind, DevItemFn, DevSignature, Spot};
use crate::tag::{lemma_written_tag, tag_names, valid_tag_names, writes_tags, CrateTag};
use crate::tokens::{parse_punct, spec_crate_tag, spec_punct, ParseError, ParseErrorKind, Tok};

verus! {

/// A map function.
#[derive(Debug, Clone)]
pub struct DevMapFn {
    /// The token text of the visibility.
    pub vis: String,
    pub sig: DevSignature,
    /// The token text of the body.
    pub block: String,
}

/// The input and output types of one argument of a map function, by the
/// names of the primitive types.
#[derive(Debug, Clone)]
pub struct InOut {
    pub input: Option<PrimitiveIdent>,
    pub output: Option<PrimitiveIdent>,
}

/// The arguments of the map attribute: zero or more crate tags.
#[derive(Clone, Debug)]
pub struct MapAttrs {
    pub tags: Vec<CrateTag>,
}

/// The rule for map functions, given a signature with a return type: exactly
/// one input, of a device type (not `Any`). `None` when it holds, else the
/// rejection.
pub open spec fn map_fn_check(sig: DevSignature) -> Option<DevError> {
    let inputs = sig.inputs@;
    if inputs.len() == 0 {
        Some(DevError { at: Spot::Output, kind: DevErrorKind::ExpectedAnInput })
    } else if inputs.len() == 1 {
        match inputs[0].ty {
            DevArgType::DeviceType(_) => None,
            DevArgType::SpindleAny => Some(
                DevError { at: Spot::ArgSegment { arg: 0, segment: 0 }, kind: DevErrorKind::InputIsAny },
            ),
            DevArgType::SpindleAnyFullPath => Some(
                DevError { at: Spot::Arg { arg: 0 }, kind: DevErrorKind::InputIsAnyPath },
            ),
        }
    } else {
        Some(DevError { at: Spot::SecondArg, kind: DevErrorKind::ExpectedOnlyOneInput })
    }
}

impl DevMapFn {
    /// The map function made of a device function that returns a single
    /// type and takes exactly one device-typed input.
    pub fn try_from(value: DevItemFn) -> (r: Result<DevMapFn, DevError>)
        requires
            value.sig.output is Type,
        ensures
            r is Ok <==> map_fn_check(value.sig) is None,
            r matches Err(e) ==> map_fn_check(value.sig) == Some(e),
            r matches Ok(f) ==> f.vis == value.vis && f.sig == value.sig && f.block == value.block,
    {
        let n = value.sig.inputs.len();
        if n == 0 {
            return Err(DevError { at: Spot::Output, kind: DevErrorKind::ExpectedAnInput });
        }
        if n > 1 {
            return Err(DevError { at: Spot::SecondArg, kind: DevErrorKind::ExpectedOnlyOneInput });
        }
        match &value.sig.inputs[0].ty {
            DevArgType::DeviceType(_) => {},
            DevArgType::SpindleAny => {
                return Err(
                    DevError {
                        at: Spot::ArgSegment { arg: 0, segment: 0 },
                        kind: DevErrorKind::InputIsAny,
                    },
                );
            },
            DevArgType::SpindleAnyFullPath => {
                return Err(DevError { at: Spot::Arg { arg: 0 }, kind: DevErrorKind::InputIsAnyPath });
            },
        }
        let DevItemFn { vis, sig, block } = value;
        Ok(DevMapFn { vis, sig, block })
    }

    /// The name of the map function.
    pub fn ident(&self) -> (r: &String)
        ensures
            r@ == self.sig.ident.0@,
    {
        &self.sig.ident.0
    }

    /// The name the map function is stored under.
    pub fn db_item_ident(&self) -> (r: String)
        ensures
            r@ == self.sig.ident.0@,
    {
        self.sig.ident.0.clone()
    }
}

/// The tags of `#a, #b, ..., #z` from position `pos` on, after the tags
/// `tags` already read: a tag, then either the end or a comma and more tags.
pub open spec fn spec_map_tags(toks: Seq<Tok>, pos: nat, tags: Seq<Seq<char>>) -> Result<
    Seq<Seq<char>>,
    ParseError,
>
    decreases toks.len() - pos,
{
    match spec_crate_tag(toks, pos) {
        Err(e) => Err(e),
        Ok((tag, next)) => {
            if next >= toks.len() {
                Ok(tags.push(tag))
            } else {
                match spec_punct(toks, next, ',') {
                    Err(e) => Err(e),
                    Ok(after_comma) => spec_map_tags(toks, after_comma, tags.push(tag)),
                }
            }
        },
    }
}

/// The tags of the map attribute's arguments: none at all, or
/// `#a, #b, ..., #z` without a trailing comma.
pub open spec fn spec_map_attrs(toks: Seq<Tok>) -> Result<Seq<Seq<char>>, ParseError> {
    if toks.len() == 0 {
        Ok(Seq::empty())
    } else {
        spec_map_tags(toks, 0, Seq::empty())
    }
}

impl MapAttrs {
    /// Parses the map attribute's arguments.
    pub fn parse(toks: &Vec<Tok>) -> (r: Result<MapAttrs, ParseError>)
        ensures
            r is Ok <==> spec_map_attrs(toks@) is Ok,
            r matches Ok(a) ==> spec_map_attrs(toks@) == Ok::<Seq<Seq<char>>, ParseError>(
                tag_names(a.tags@),
            ),
            r matches Err(e) ==> spec_map_attrs(toks@) == Err::<Seq<Seq<char>>, ParseError>(e),
    {
        let mut tags: Vec<CrateTag> = Vec::new();
        if toks.len() == 0 {
            assert(tag_names(tags@) =~= Seq::<Seq<char>>::empty());
            return Ok(MapAttrs { tags });
        }
        let mut pos: usize = 0;
        assert(tag_names(tags@) =~= Seq::<Seq<char>>::empty());
        loop
            invariant_except_break
                pos <= toks@.len(),
                spec_map_attrs(toks@) == spec_map_tags(toks@, pos as nat, tag_names(tags@)),
            ensures
                spec_map_attrs(toks@) == Ok::<Seq<Seq<char>>, ParseError>(tag_names(tags@)),
            decreases toks@.len() - pos,
        {
            let (tag, next) = CrateTag::parse(toks, pos)?;
            let ghost before = tags@;
            tags.push(tag);
            assert(tag_names(tags@) =~= tag_names(before).push(tag.name()));
            if next >= toks.len() {
                break;
            }
            let after_comma = parse_punct(toks, next, ',')?;
            pos = after_comma;
        }
        Ok(MapAttrs { tags })
    }
}

/// Reading tags written as `writes_tags` says, from the `j`-th tag on, gives
/// the remaining tags; after a trailing comma a further tag is expected.
proof fn lemma_map_written_tags(toks: Seq<Tok>, names: Seq<Seq<char>>, trailing: bool, j: int)
    requires
        writes_tags(toks, names, trailing),
        valid_tag_names(names),
        0 <= j < names.len(),
    ensures
        spec_map_tags(toks, (3 * j) as nat, names.take(j)) == (if trailing {
            Err::<Seq<Seq<char>>, ParseError>(
                ParseError { at: toks.len() as usize, kind: ParseErrorKind::Punct('#') },
            )
        } else {
            Ok::<Seq<Seq<char>>, ParseError>(names)
        }),
    decreases names.len() - j,
{
    lemma_written_tag(toks, names, trailing, j);
    assert(names.take(j).push(names[j]) =~= names.take(j + 1));
    let next = 3 * j + 2;
    if j + 1 == names.len() {
        assert(names.take(j + 1) =~= names);
        if trailing {
            assert(next % 3 == 2);
            assert(toks[next] == Tok::Punct(','));
        }
    } else {
        assert(next % 3 == 2);
        assert(toks[next] == Tok::Punct(','));
        lemma_map_written_tags(toks, names, trailing, j + 1);
    }
}

/// The map attribute reads back the tags it lists: `#a, #b, ..., #z`, where
/// every name is lower snake case and not a reserved word, gives exactly
/// those names, in order; with a trailing comma it is refused, a further tag
/// being expected at the end of the input.
pub proof fn law_map_attrs_read_listed_tags(toks: Seq<Tok>, names: Seq<Seq<char>>, trailing: bool)
    requires
        writes_tags(toks, names, trailing),
        valid_tag_names(names),
    ensures
        !trailing ==> spec_map_attrs(toks) == Ok::<Seq<Seq<char>>, ParseError>(names),
        trailing ==> spec_map_attrs(toks) == Err::<Seq<Seq<char>>, ParseError>(
            ParseError { at: toks.len() as usize, kind: ParseErrorKind::Punct('#') },
        ),
{
    assert(names.take(0) =~= Seq::<Seq<char>>::empty());
    lemma_map_written_tags(toks, names, trailing, 0);
}

/// A map function is refused only for a missing input, a second input, or an
/// input of type `Any` or `spindle::zst::Any`: a single input of any device
/// type, of whichever family, is accepted.
pub proof fn law_map_fn_inputs(sig: DevSignature)
    ensures
        map_fn_check(sig) is None <==> sig.inputs@.len() == 1 && sig.inputs@[0].ty is DeviceType,
        sig.inputs@.len() == 0 ==> map_fn_check(sig) == Some(
            DevError { at: Spot::Output, kind: DevErrorKind::ExpectedAnInput },
        ),
        sig.inputs@.len() > 1 ==> map_fn_check(sig) == Some(
            DevError { at: Spot::SecondArg, kind: DevErrorKind::ExpectedOnlyOneInput },
        ),
        sig.inputs@.len() == 1 && sig.inputs@[0].ty is SpindleAny ==> map_fn_check(sig) is Some
            && map_fn_check(sig)->Some_0.kind == DevErrorKind::InputIsAny,
        sig.inputs@.len() == 1 && sig.inputs@[0].ty is SpindleAnyFullPath ==> map_fn_check(sig) is Some
            && map_fn_check(sig)->Some_0.kind == DevErrorKind::InputIsAnyPath,
{
}

} // verus!
