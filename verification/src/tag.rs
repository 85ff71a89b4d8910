//! Crate tags: `#name` markers that group maps into one generated crate.
use vstd::prelude::*;
use crate::case::LowerSnakeIdent;
use crate::tokens::{is_lower_snake, is_reserved_word, parse_punct, spec_crate_tag, ParseError, Tok};

verus! {

/// A crate tag, held by its lower snake case name.
#[derive(Clone, Debug)]
pub struct CrateTag(pub LowerSnakeIdent);

impl CrateTag {
    /// The tag's name.
    pub open spec fn name(&self) -> Seq<char> {
        self.0.0@
    }

    /// Consumes a crate tag `#name` at `pos`.
    pub fn parse(toks: &Vec<Tok>, pos: usize) -> (r: Result<(CrateTag, usize), ParseError>)
        ensures
            r is Ok <==> spec_crate_tag(toks@, pos as nat) is Ok,
            r matches Ok((t, next)) ==> spec_crate_tag(toks@, pos as nat) == Ok::<
                (Seq<char>, nat),
                ParseError,
            >((t.name(), next as nat)),
            r matches Err(e) ==> spec_crate_tag(toks@, pos as nat) == Err::<
                (Seq<char>, nat),
                ParseError,
            >(e),
    {
        let next = parse_punct(toks, pos, '#')?;
        let (ident, next) = LowerSnakeIdent::parse(toks, next)?;
        Ok((CrateTag(ident), next))
    }

    /// The tag as stored in the database: its name.
    pub fn db_tag(&self) -> (r: String)
        ensures
            r@ == self.name(),
    {
        self.0.0.clone()
    }

    /// The tag as displayed: its name.
    pub fn to_string(&self) -> (r: String)
        ensures
            r@ == self.name(),
    {
        self.0.0.clone()
    }
}

impl PartialEq for CrateTag {
    /// Two tags are equal when their names are.
    fn eq(&self, other: &Self) -> (r: bool) {
        self.0.0 == other.0.0
    }
}

impl vstd::std_specs::cmp::PartialEqSpecImpl for CrateTag {
    open spec fn obeys_eq_spec() -> bool {
        true
    }

    open spec fn eq_spec(&self, other: &Self) -> bool {
        self.0.0@ == other.0.0@
    }
}

/// The names of a list of tags, in order.
pub open spec fn tag_names(tags: Seq<CrateTag>) -> Seq<Seq<char>> {
    tags.map_values(|t: CrateTag| t.name())
}

/// `toks` writes the tags named `names` as `#a, #b, ..., #z`: at least one
/// tag, each a `#` and an identifier, a comma between two tags, and one more
/// comma at the end when `trailing`.
pub open spec fn writes_tags(toks: Seq<Tok>, names: Seq<Seq<char>>, trailing: bool) -> bool {
    &&& names.len() > 0
    &&& toks.len() == 3 * names.len() - 1 + (if trailing { 1int } else { 0int })
    &&& forall|i: int|
        0 <= i < toks.len() ==> {
            &&& i % 3 == 0 ==> #[trigger] toks[i] == Tok::Punct('#')
            &&& i % 3 == 1 ==> toks[i] is Ident && toks[i]->Ident_0@ == names[i / 3]
            &&& i % 3 == 2 ==> toks[i] == Tok::Punct(',')
        }
}

/// Every name can name a tag: lower snake case, and not a reserved word.
pub open spec fn valid_tag_names(names: Seq<Seq<char>>) -> bool {
    forall|k: int| 0 <= k < names.len() ==> is_lower_snake(#[trigger] names[k]) && !is_reserved_word(names[k])
}

/// In tags written as `writes_tags` says, the `k`-th tag is read at `3k`
/// and ends before `3k + 2`.
pub proof fn lemma_written_tag(toks: Seq<Tok>, names: Seq<Seq<char>>, trailing: bool, k: int)
    requires
        writes_tags(toks, names, trailing),
        valid_tag_names(names),
        0 <= k < names.len(),
    ensures
        spec_crate_tag(toks, (3 * k) as nat) == Ok::<(Seq<char>, nat), ParseError>(
            (names[k], (3 * k + 2) as nat),
        ),
{
    assert((3 * k) % 3 == 0);
    assert((3 * k + 1) % 3 == 1);
    assert((3 * k + 1) / 3 == k);
    assert(toks[3 * k] == Tok::Punct('#'));
    assert(toks[3 * k + 1] is Ident && toks[3 * k + 1]->Ident_0@ == names[k]);
    assert(is_lower_snake(names[k]) && !is_reserved_word(names[k]));
}

} // verus!
