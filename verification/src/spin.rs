//! The `spin` macro's input: a crate tag followed by the unions the crate's
//! maps work on, and the generated crate's layout.
use vstd::prelude::*;
use crate::case::{spec_case, Case, Cased, LowerSnakeIdent, PrimitiveIdent, UpperCamelIdent};
use crate::tag::CrateTag;
use crate::tokens::{
    is_lower_snake, is_primitive_name, is_reserved_word, is_upper_camel, parse_ident, parse_punct,
    peek_punct, perr, spec_crate_tag, spec_ident, spec_peek_punct, spec_primitive, spec_punct,
    spec_upper_camel, ParseError, ParseErrorKind, Tok,
};

verus! {

/// A union of the `spin` input: either defined here from primitive types
/// (`U = i32 | f64`) or already in scope (`V`).
#[derive(Debug, Clone)]
pub enum UnionInput {
    New(UpperCamelIdent, Vec<PrimitiveIdent>),
    InScope(UpperCamelIdent),
}

/// The `spin` macro's input.
#[derive(Debug, Clone)]
pub struct SpinInputs {
    pub tag: CrateTag,
    pub unions: Vec<UnionInput>,
}

/// A union defined from primitive types.
#[derive(Debug, Clone)]
pub struct NewUnion(pub UpperCamelIdent, pub Vec<PrimitiveIdent>);

/// A union already in scope.
#[derive(Debug, Clone)]
pub struct UnionInScope(pub UpperCamelIdent);

/// A map function already in scope.
#[derive(Debug, Clone)]
pub struct MapFnInScope(pub LowerSnakeIdent);

/// One item of the general `spin` input.
#[derive(Debug, Clone)]
pub enum RawSpinInput {
    UnionInScope(UnionInScope),
    NewUnion(NewUnion),
    MapFnInScope(MapFnInScope),
}

/// The general `spin` input, its items sorted by kind.
#[derive(Debug, Clone)]
pub struct RawSpinInputs {
    pub _crate_tag: CrateTag,
    pub _unions_in_scope: Vec<UnionInScope>,
    pub _new_unions: Vec<NewUnion>,
    pub _map_fns_in_scope: Vec<MapFnInScope>,
}

/// What a union input stands for, by names.
pub enum UnionView {
    New(Seq<char>, Seq<Seq<char>>),
    InScope(Seq<char>),
}

/// What an item of the general input stands for, by names.
pub enum RawView {
    UnionInScope(Seq<char>),
    NewUnion(Seq<char>, Seq<Seq<char>>),
    MapFnInScope(Seq<char>),
}

/// The names of a list of primitive types.
pub open spec fn prim_names(fields: Seq<PrimitiveIdent>) -> Seq<Seq<char>> {
    fields.map_values(|p: PrimitiveIdent| p.0@)
}

impl UnionInput {
    pub open spec fn view(&self) -> UnionView {
        match *self {
            UnionInput::New(u, fields) => UnionView::New(u.0@, prim_names(fields@)),
            UnionInput::InScope(u) => UnionView::InScope(u.0@),
        }
    }
}

impl RawSpinInput {
    pub open spec fn view(&self) -> RawView {
        match *self {
            RawSpinInput::UnionInScope(u) => RawView::UnionInScope(u.0.0@),
            RawSpinInput::NewUnion(u) => RawView::NewUnion(u.0.0@, prim_names(u.1@)),
            RawSpinInput::MapFnInScope(m) => RawView::MapFnInScope(m.0.0@),
        }
    }
}

/// The primitive types of `| p | q ...` from `pos` on, after the ones already
/// read; the list and the position after it.
pub open spec fn spec_more_fields(toks: Seq<Tok>, pos: nat, fields: Seq<Seq<char>>) -> Result<
    (Seq<Seq<char>>, nat),
    ParseError,
>
    decreases toks.len() - pos,
{
    if spec_peek_punct(toks, pos, '|') {
        match spec_primitive(toks, pos + 1) {
            Err(e) => Err(e),
            Ok((p, next)) => spec_more_fields(toks, next, fields.push(p)),
        }
    } else {
        Ok((fields, pos))
    }
}

/// The primitive types of `= p | q ...` at `pos` (the `=` already seen):
/// one or more, separated by `|`.
pub open spec fn spec_union_fields(toks: Seq<Tok>, pos: nat) -> Result<
    (Seq<Seq<char>>, nat),
    ParseError,
> {
    match spec_punct(toks, pos, '=') {
        Err(e) => Err(e),
        Ok(after_eq) => match spec_primitive(toks, after_eq) {
            Err(e) => Err(e),
            Ok((p, next)) => spec_more_fields(toks, next, seq![p]),
        },
    }
}

/// A union input at `pos`: an upper camel case name, then, when an `=`
/// follows, its primitive types.
pub open spec fn spec_union_input(toks: Seq<Tok>, pos: nat) -> Result<(UnionView, nat), ParseError> {
    match spec_upper_camel(toks, pos) {
        Err(e) => Err(e),
        Ok((u, next)) => if spec_peek_punct(toks, next, '=') {
            match spec_union_fields(toks, next) {
                Err(e) => Err(e),
                Ok((fields, after)) => Ok((UnionView::New(u, fields), after)),
            }
        } else {
            Ok((UnionView::InScope(u), next))
        },
    }
}

/// Reads `| p | q ...` at `pos`, appending the primitive types to `fields`.
pub fn parse_more_fields(toks: &Vec<Tok>, pos: usize, fields: &mut Vec<PrimitiveIdent>) -> (r: Result<
    usize,
    ParseError,
>)
    ensures
        r is Ok <==> spec_more_fields(toks@, pos as nat, prim_names(old(fields)@)) is Ok,
        r matches Ok(next) ==> spec_more_fields(toks@, pos as nat, prim_names(old(fields)@))
            == Ok::<(Seq<Seq<char>>, nat), ParseError>((prim_names(final(fields)@), next as nat)),
        r matches Err(e) ==> spec_more_fields(toks@, pos as nat, prim_names(old(fields)@)) == Err::<
            (Seq<Seq<char>>, nat),
            ParseError,
        >(e),
{
    let n = toks.len();
    let mut cur = pos;
    let ghost goal = spec_more_fields(toks@, pos as nat, prim_names(old(fields)@));
    while peek_punct(toks, cur, '|')
        invariant
            n == toks@.len(),
            goal == spec_more_fields(toks@, pos as nat, prim_names(old(fields)@)),
            goal == spec_more_fields(toks@, cur as nat, prim_names(fields@)),
        decreases toks@.len() - cur,
    {
        assert(cur < n);
        let (p, next) = PrimitiveIdent::parse(toks, cur + 1)?;
        let ghost before = fields@;
        fields.push(p);
        assert(prim_names(fields@) =~= prim_names(before).push(p.0@));
        cur = next;
    }
    Ok(cur)
}

impl UnionInput {
    /// Consumes a union input at `pos`: `U` or `U = p | q ...`.
    pub fn parse(toks: &Vec<Tok>, pos: usize) -> (r: Result<(UnionInput, usize), ParseError>)
        ensures
            r is Ok <==> spec_union_input(toks@, pos as nat) is Ok,
            r matches Ok((u, next)) ==> spec_union_input(toks@, pos as nat) == Ok::<
                (UnionView, nat),
                ParseError,
            >((u.view(), next as nat)),
            r matches Err(e) ==> spec_union_input(toks@, pos as nat) == Err::<
                (UnionView, nat),
                ParseError,
            >(e),
    {
        let (ident, next) = UpperCamelIdent::parse(toks, pos)?;
        if peek_punct(toks, next, '=') {
            let after_eq = parse_punct(toks, next, '=')?;
            let (p, after) = PrimitiveIdent::parse(toks, after_eq)?;
            let mut fields: Vec<PrimitiveIdent> = Vec::new();
            fields.push(p);
            assert(prim_names(fields@) =~= seq![p.0@]);
            let end = parse_more_fields(toks, after, &mut fields)?;
            Ok((UnionInput::New(ident, fields), end))
        } else {
            Ok((UnionInput::InScope(ident), next))
        }
    }
}

/// The unions of `, V, W = p | q ...` from `pos` on, after the ones already
/// read; one trailing comma is allowed, and the input must end there.
pub open spec fn spec_more_unions(toks: Seq<Tok>, pos: nat, unions: Seq<UnionView>) -> Result<
    Seq<UnionView>,
    ParseError,
>
    decreases toks.len() - pos,
{
    if pos >= toks.len() {
        Ok(unions)
    } else {
        match spec_punct(toks, pos, ',') {
            Err(e) => Err(e),
            Ok(after_comma) => if after_comma >= toks.len() {
                Ok(unions)
            } else {
                match spec_union_input(toks, after_comma) {
                    Err(e) => Err(e),
                    Ok((u, next)) => {
                        proof {
                            lemma_union_input_advances(toks, after_comma);
                        }
                        spec_more_unions(toks, next, unions.push(u))
                    },
                }
            },
        }
    }
}

/// The `spin` input `#tag, U = p | q, V, ...`: a crate tag, a comma, then one
/// or more comma-separated unions, with one trailing comma allowed. The tag's
/// name and the unions.
pub open spec fn spec_spin_inputs(toks: Seq<Tok>) -> Result<(Seq<char>, Seq<UnionView>), ParseError> {
    match spec_crate_tag(toks, 0) {
        Err(e) => Err(e),
        Ok((tag, after_tag)) => match spec_punct(toks, after_tag, ',') {
            Err(e) => Err(e),
            Ok(after_comma) => match spec_union_input(toks, after_comma) {
                Err(e) => Err(e),
                Ok((u, next)) => match spec_more_unions(toks, next, seq![u]) {
                    Err(e) => Err(e),
                    Ok(unions) => Ok((tag, unions)),
                },
            },
        },
    }
}

/// What a union input read from `pos` on ends after it.
pub proof fn lemma_union_input_advances(toks: Seq<Tok>, pos: nat)
    ensures
        spec_union_input(toks, pos) matches Ok((_, next)) ==> pos < next <= toks.len(),
{
    if let Ok((u, next)) = spec_upper_camel(toks, pos) {
        if spec_peek_punct(toks, next, '=') {
            if let Ok((p, n2)) = spec_primitive(toks, next + 1) {
                lemma_more_fields_advance(toks, n2, seq![p]);
            }
        }
    }
}

/// Reading more fields never moves backwards.
pub proof fn lemma_more_fields_advance(toks: Seq<Tok>, pos: nat, fields: Seq<Seq<char>>)
    ensures
        spec_more_fields(toks, pos, fields) matches Ok((_, next)) ==> next >= pos && (pos
            <= toks.len() ==> next <= toks.len()),
    decreases toks.len() - pos,
{
    if spec_peek_punct(toks, pos, '|') {
        if let Ok((p, next)) = spec_primitive(toks, pos + 1) {
            lemma_more_fields_advance(toks, next, fields.push(p));
        }
    }
}

impl NewUnion {
    /// The name the union is stored under.
    pub fn db_ident(&self) -> (r: String)
        ensures
            r@ == self.0.0@,
    {
        self.0.0.clone()
    }

    /// The primitive types the union is stored with, in order.
    pub fn db_fields(&self) -> (r: Vec<PrimitiveIdent>)
        ensures
            prim_names(r@) == prim_names(self.1@),
    {
        let mut out: Vec<PrimitiveIdent> = Vec::new();
        let mut i: usize = 0;
        while i < self.1.len()
            invariant
                i <= self.1@.len(),
                prim_names(out@) == prim_names(self.1@).take(i as int),
            decreases self.1@.len() - i,
        {
            let ghost before = out@;
            out.push(PrimitiveIdent(self.1[i].0.clone()));
            assert(prim_names(out@) =~= prim_names(before).push(self.1@[i as int].0@));
            assert(prim_names(self.1@).take(i + 1) =~= prim_names(self.1@).take(i as int).push(
                self.1@[i as int].0@,
            ));
            i = i + 1;
        }
        assert(prim_names(self.1@).take(self.1@.len() as int) =~= prim_names(self.1@));
        out
    }
}

/// The views of a list of union inputs.
pub open spec fn union_views(unions: Seq<UnionInput>) -> Seq<UnionView> {
    unions.map_values(|u: UnionInput| u.view())
}

impl SpinInputs {
    /// Parses the `spin` macro's input.
    pub fn parse(toks: &Vec<Tok>) -> (r: Result<SpinInputs, ParseError>)
        ensures
            r is Ok <==> spec_spin_inputs(toks@) is Ok,
            r matches Ok(s) ==> spec_spin_inputs(toks@) == Ok::<
                (Seq<char>, Seq<UnionView>),
                ParseError,
            >((s.tag.name(), union_views(s.unions@))),
            r matches Err(e) ==> spec_spin_inputs(toks@) == Err::<
                (Seq<char>, Seq<UnionView>),
                ParseError,
            >(e),
    {
        let (tag, after_tag) = CrateTag::parse(toks, 0)?;
        let after_comma = parse_punct(toks, after_tag, ',')?;
        let (u, mut pos) = UnionInput::parse(toks, after_comma)?;
        proof {
            lemma_union_input_advances(toks@, after_comma as nat);
        }
        let mut unions: Vec<UnionInput> = Vec::new();
        unions.push(u);
        assert(union_views(unions@) =~= seq![u.view()]);
        let ghost goal = spec_more_unions(toks@, pos as nat, union_views(unions@));
        let ghost tag_name = tag.name();
        assert(goal is Err ==> spec_spin_inputs(toks@) == Err::<(Seq<char>, Seq<UnionView>), ParseError>(goal->Err_0));
        while pos < toks.len()
            invariant
                pos <= toks@.len(),
                tag_name == tag.name(),
                goal == spec_more_unions(toks@, pos as nat, union_views(unions@)),
                goal is Err ==> spec_spin_inputs(toks@) == Err::<(Seq<char>, Seq<UnionView>), ParseError>(goal->Err_0),
                goal is Ok ==> spec_spin_inputs(toks@) == Ok::<(Seq<char>, Seq<UnionView>), ParseError>((tag_name, goal->Ok_0)),
            ensures
                goal == Ok::<Seq<UnionView>, ParseError>(union_views(unions@)),
            decreases toks@.len() - pos,
        {
            let after_comma = parse_punct(toks, pos, ',')?;
            if after_comma >= toks.len() {
                pos = after_comma;
                break;
            }
            let (u, next) = UnionInput::parse(toks, after_comma)?;
            proof {
                lemma_union_input_advances(toks@, after_comma as nat);
            }
            let ghost before = unions@;
            unions.push(u);
            assert(union_views(unions@) =~= union_views(before).push(u.view()));
            pos = next;
        }
        Ok(SpinInputs { tag, unions })
    }
}

/// An item of the general `spin` input at `pos`: a lower snake case name is a
/// map in scope; an upper camel case name is a union, defined here when an
/// `=` follows; a primitive type's name, or a name of neither case, is
/// rejected.
pub open spec fn spec_raw_input(toks: Seq<Tok>, pos: nat) -> Result<(RawView, nat), ParseError> {
    match spec_ident(toks, pos) {
        Err(e) => Err(e),
        Ok((name, next)) => match spec_case(name) {
            Case::LowerSnake => Ok((RawView::MapFnInScope(name), next)),
            Case::UpperCamel => if spec_peek_punct(toks, next, '=') {
                match spec_union_fields(toks, next) {
                    Err(e) => Err(e),
                    Ok((fields, after)) => Ok((RawView::NewUnion(name, fields), after)),
                }
            } else {
                Ok((RawView::UnionInScope(name), next))
            },
            Case::SupportedPrimitive | Case::UnsupportedPrimitive => perr(
                pos,
                ParseErrorKind::PrimitiveNotAllowed,
            ),
            Case::Unknown => perr(pos, ParseErrorKind::UnknownCase),
        },
    }
}

impl RawSpinInput {
    /// Consumes an item of the general `spin` input at `pos`.
    pub fn parse(toks: &Vec<Tok>, pos: usize) -> (r: Result<(RawSpinInput, usize), ParseError>)
        ensures
            r is Ok <==> spec_raw_input(toks@, pos as nat) is Ok,
            r matches Ok((x, next)) ==> spec_raw_input(toks@, pos as nat) == Ok::<
                (RawView, nat),
                ParseError,
            >((x.view(), next as nat)),
            r matches Err(e) ==> spec_raw_input(toks@, pos as nat) == Err::<
                (RawView, nat),
                ParseError,
            >(e),
    {
        let (name, next) = parse_ident(toks, pos)?;
        let case = name.as_str().case();
        match case {
            Case::LowerSnake => Ok((RawSpinInput::MapFnInScope(MapFnInScope(LowerSnakeIdent(name))), next)),
            Case::UpperCamel => {
                let ident = UpperCamelIdent(name);
                if peek_punct(toks, next, '=') {
                    let after_eq = parse_punct(toks, next, '=')?;
                    let (p, after) = PrimitiveIdent::parse(toks, after_eq)?;
                    let mut fields: Vec<PrimitiveIdent> = Vec::new();
                    fields.push(p);
                    assert(prim_names(fields@) =~= seq![p.0@]);
                    let end = parse_more_fields(toks, after, &mut fields)?;
                    Ok((RawSpinInput::NewUnion(NewUnion(ident, fields)), end))
                } else {
                    Ok((RawSpinInput::UnionInScope(UnionInScope(ident)), next))
                }
            },
            Case::SupportedPrimitive | Case::UnsupportedPrimitive => Err(
                ParseError { at: pos, kind: ParseErrorKind::PrimitiveNotAllowed },
            ),
            Case::Unknown => Err(ParseError { at: pos, kind: ParseErrorKind::UnknownCase }),
        }
    }
}

/// What an item of the general input read from `pos` on ends after it.
pub proof fn lemma_raw_input_advances(toks: Seq<Tok>, pos: nat)
    ensures
        spec_raw_input(toks, pos) matches Ok((_, next)) ==> pos < next <= toks.len(),
{
    if let Ok((name, next)) = spec_ident(toks, pos) {
        if spec_peek_punct(toks, next, '=') {
            if let Ok((p, n2)) = spec_primitive(toks, next + 1) {
                lemma_more_fields_advance(toks, n2, seq![p]);
            }
        }
    }
}

/// The items of `, x, y ...` from `pos` on, after the ones already read:
/// while a comma follows, an item follows it unless the input ends there.
/// The items and the position after them.
pub open spec fn spec_more_raw(toks: Seq<Tok>, pos: nat, items: Seq<RawView>) -> Result<
    (Seq<RawView>, nat),
    ParseError,
>
    decreases toks.len() - pos,
{
    if spec_peek_punct(toks, pos, ',') {
        if pos + 1 >= toks.len() {
            Ok((items, pos + 1))
        } else {
            match spec_raw_input(toks, pos + 1) {
                Err(e) => Err(e),
                Ok((x, next)) => {
                    proof {
                        lemma_raw_input_advances(toks, pos + 1);
                    }
                    spec_more_raw(toks, next, items.push(x))
                },
            }
        }
    } else {
        Ok((items, pos))
    }
}

/// The general `spin` input: a crate tag, a comma, then one or more
/// comma-separated items with one trailing comma allowed. The tag's name,
/// the items, and the position after them.
pub open spec fn spec_raw_inputs(toks: Seq<Tok>) -> Result<(Seq<char>, Seq<RawView>, nat), ParseError> {
    match spec_crate_tag(toks, 0) {
        Err(e) => Err(e),
        Ok((tag, after_tag)) => match spec_punct(toks, after_tag, ',') {
            Err(e) => Err(e),
            Ok(after_comma) => match spec_raw_input(toks, after_comma) {
                Err(e) => Err(e),
                Ok((x, next)) => match spec_more_raw(toks, next, seq![x]) {
                    Err(e) => Err(e),
                    Ok((items, end)) => Ok((tag, items, end)),
                },
            },
        },
    }
}

/// The unions in scope among the items, in order.
pub open spec fn scoped_unions(items: Seq<RawView>) -> Seq<Seq<char>>
    decreases items.len(),
{
    if items.len() == 0 {
        Seq::empty()
    } else {
        let prev = scoped_unions(items.drop_last());
        match items.last() {
            RawView::UnionInScope(n) => prev.push(n),
            _ => prev,
        }
    }
}

/// The unions defined here among the items, in order.
pub open spec fn defined_unions(items: Seq<RawView>) -> Seq<(Seq<char>, Seq<Seq<char>>)>
    decreases items.len(),
{
    if items.len() == 0 {
        Seq::empty()
    } else {
        let prev = defined_unions(items.drop_last());
        match items.last() {
            RawView::NewUnion(n, fields) => prev.push((n, fields)),
            _ => prev,
        }
    }
}

/// The maps in scope among the items, in order.
pub open spec fn scoped_maps(items: Seq<RawView>) -> Seq<Seq<char>>
    decreases items.len(),
{
    if items.len() == 0 {
        Seq::empty()
    } else {
        let prev = scoped_maps(items.drop_last());
        match items.last() {
            RawView::MapFnInScope(n) => prev.push(n),
            _ => prev,
        }
    }
}

impl RawSpinInputs {
    /// The names of the unions in scope.
    pub open spec fn scoped_union_names(&self) -> Seq<Seq<char>> {
        self._unions_in_scope@.map_values(|u: UnionInScope| u.0.0@)
    }

    /// The names and primitive types of the unions defined here.
    pub open spec fn defined_union_views(&self) -> Seq<(Seq<char>, Seq<Seq<char>>)> {
        self._new_unions@.map_values(|u: NewUnion| (u.0.0@, prim_names(u.1@)))
    }

    /// The names of the maps in scope.
    pub open spec fn scoped_map_names(&self) -> Seq<Seq<char>> {
        self._map_fns_in_scope@.map_values(|m: MapFnInScope| m.0.0@)
    }

    /// The items sorted by kind are those of `items`.
    pub open spec fn sorts(&self, items: Seq<RawView>) -> bool {
        &&& self.scoped_union_names() == scoped_unions(items)
        &&& self.defined_union_views() == defined_unions(items)
        &&& self.scoped_map_names() == scoped_maps(items)
    }

    /// Parses the general `spin` input from the start of `toks`; the items
    /// are sorted by kind, each kind in input order, each item under exactly
    /// one kind. The position after the input is returned too.
    pub fn parse(toks: &Vec<Tok>) -> (r: Result<(RawSpinInputs, usize), ParseError>)
        ensures
            r is Ok <==> spec_raw_inputs(toks@) is Ok,
            r matches Ok((x, end)) ==> {
                let (tag, items, spec_end) = spec_raw_inputs(toks@)->Ok_0;
                &&& x._crate_tag.name() == tag
                &&& x.sorts(items)
                &&& end == spec_end
                &&& x._unions_in_scope@.len() + x._new_unions@.len() + x._map_fns_in_scope@.len()
                    == items.len()
            },
            r matches Err(e) ==> spec_raw_inputs(toks@) == Err::<
                (Seq<char>, Seq<RawView>, nat),
                ParseError,
            >(e),
    {
        let (crate_tag, after_tag) = CrateTag::parse(toks, 0)?;
        let after_comma = parse_punct(toks, after_tag, ',')?;
        let (first, mut pos) = RawSpinInput::parse(toks, after_comma)?;
        proof {
            lemma_raw_input_advances(toks@, after_comma as nat);
        }
        let mut out = RawSpinInputs {
            _crate_tag: crate_tag,
            _unions_in_scope: Vec::new(),
            _new_unions: Vec::new(),
            _map_fns_in_scope: Vec::new(),
        };
        let ghost empty: Seq<RawView> = Seq::empty();
        assert(out.sorts(empty)) by {
            assert(out.scoped_union_names() =~= Seq::<Seq<char>>::empty());
            assert(out.defined_union_views() =~= Seq::<(Seq<char>, Seq<Seq<char>>)>::empty());
            assert(out.scoped_map_names() =~= Seq::<Seq<char>>::empty());
        }
        out.push_item(first, Ghost(empty));
        let ghost items: Seq<RawView> = seq![first.view()];
        assert(empty.push(first.view()) =~= items);
        let ghost tag_name = out._crate_tag.name();
        let ghost goal = spec_more_raw(toks@, pos as nat, items);
        let n = toks.len();
        while peek_punct(toks, pos, ',')
            invariant
                n == toks@.len(),
                pos <= n,
                tag_name == out._crate_tag.name(),
                out.sorts(items),
                goal == spec_more_raw(toks@, pos as nat, items),
                goal is Err ==> spec_raw_inputs(toks@) == Err::<
                    (Seq<char>, Seq<RawView>, nat),
                    ParseError,
                >(goal->Err_0),
                goal is Ok ==> spec_raw_inputs(toks@) == Ok::<
                    (Seq<char>, Seq<RawView>, nat),
                    ParseError,
                >((tag_name, goal->Ok_0.0, goal->Ok_0.1)),
            ensures
                goal == Ok::<(Seq<RawView>, nat), ParseError>((items, pos as nat)),
                tag_name == out._crate_tag.name(),
                out.sorts(items),
            decreases toks@.len() - pos,
        {
            let after_comma = pos + 1;
            if after_comma >= n {
                pos = after_comma;
                break;
            }
            let (x, next) = RawSpinInput::parse(toks, after_comma)?;
            proof {
                lemma_raw_input_advances(toks@, after_comma as nat);
            }
            out.push_item(x, Ghost(items));
            proof {
                items = items.push(x.view());
            }
            pos = next;
        }
        proof {
            lemma_items_filed_once(items);
            assert(out.scoped_union_names().len() == out._unions_in_scope@.len());
            assert(out.defined_union_views().len() == out._new_unions@.len());
            assert(out.scoped_map_names().len() == out._map_fns_in_scope@.len());
        }
        Ok((out, pos))
    }

    /// Files an item under its kind.
    fn push_item(&mut self, x: RawSpinInput, Ghost(items): Ghost<Seq<RawView>>)
        requires
            old(self).sorts(items),
        ensures
            final(self).sorts(items.push(x.view())),
            final(self)._crate_tag == old(self)._crate_tag,
    {
        let ghost next = items.push(x.view());
        assert(next.drop_last() =~= items);
        match x {
            RawSpinInput::UnionInScope(u) => {
                self._unions_in_scope.push(u);
                assert(self.scoped_union_names() =~= old(self).scoped_union_names().push(u.0.0@));
                assert(self.defined_union_views() =~= old(self).defined_union_views());
                assert(self.scoped_map_names() =~= old(self).scoped_map_names());
            },
            RawSpinInput::NewUnion(u) => {
                let ghost v = (u.0.0@, prim_names(u.1@));
                self._new_unions.push(u);
                assert(self.scoped_union_names() =~= old(self).scoped_union_names());
                assert(self.defined_union_views() =~= old(self).defined_union_views().push(v));
                assert(self.scoped_map_names() =~= old(self).scoped_map_names());
            },
            RawSpinInput::MapFnInScope(m) => {
                self._map_fns_in_scope.push(m);
                assert(self.scoped_union_names() =~= old(self).scoped_union_names());
                assert(self.defined_union_views() =~= old(self).defined_union_views());
                assert(self.scoped_map_names() =~= old(self).scoped_map_names().push(m.0.0@));
            },
        }
    }
}

/// The token at `pos` is the identifier `name`.
pub open spec fn ident_at(toks: Seq<Tok>, pos: int, name: Seq<char>) -> bool {
    0 <= pos < toks.len() && toks[pos] is Ident && toks[pos]->Ident_0@ == name
}

/// The token at `pos` is the punctuation character `c`.
pub open spec fn punct_at(toks: Seq<Tok>, pos: int, c: char) -> bool {
    0 <= pos < toks.len() && toks[pos] == Tok::Punct(c)
}

/// The `k`-th primitive type of a union written at `pos` is `name`.
pub open spec fn field_at(toks: Seq<Tok>, pos: int, k: int, name: Seq<char>) -> bool {
    ident_at(toks, pos + 2 + 2 * k, name)
}

/// A `|` stands before the `k`-th primitive type of a union written at `pos`.
pub open spec fn field_sep_at(toks: Seq<Tok>, pos: int, k: int) -> bool {
    punct_at(toks, pos + 1 + 2 * k, '|')
}

/// The number of tokens a union input is written with: its name, and for a
/// union defined here `=` and its primitive types separated by `|`.
pub open spec fn union_len(u: UnionView) -> int {
    match u {
        UnionView::InScope(_) => 1,
        UnionView::New(_, prims) => 2 * prims.len() + 1int,
    }
}

/// `toks` writes the union input `u` at `pos`: `U`, or `U = p | q ...` with
/// at least one primitive type.
pub open spec fn writes_union(toks: Seq<Tok>, pos: int, u: UnionView) -> bool {
    match u {
        UnionView::InScope(name) => ident_at(toks, pos, name),
        UnionView::New(name, prims) => {
            &&& prims.len() > 0
            &&& ident_at(toks, pos, name)
            &&& punct_at(toks, pos + 1, '=')
            &&& forall|k: int| 0 <= k < prims.len() ==> #[trigger] field_at(toks, pos, k, prims[k])
            &&& forall|k: int| 1 <= k < prims.len() ==> #[trigger] field_sep_at(toks, pos, k)
        },
    }
}

/// The names of a union input can be read back: an upper camel case name
/// that is not reserved, and primitive type names that are not reserved.
pub open spec fn valid_union(u: UnionView) -> bool {
    match u {
        UnionView::InScope(name) => is_upper_camel(name) && !is_reserved_word(name),
        UnionView::New(name, prims) => {
            &&& is_upper_camel(name)
            &&& !is_reserved_word(name)
            &&& forall|k: int|
                0 <= k < prims.len() ==> is_primitive_name(#[trigger] prims[k]) && !is_reserved_word(
                    prims[k],
                )
        },
    }
}

/// The names can be read back as primitive types: primitive type names that
/// are not reserved.
pub open spec fn valid_prims(prims: Seq<Seq<char>>) -> bool {
    forall|k: int|
        0 <= k < prims.len() ==> is_primitive_name(#[trigger] prims[k]) && !is_reserved_word(prims[k])
}

/// Where the `j`-th union input starts when the inputs are written one after
/// another from position 3 on, a comma after each.
pub open spec fn union_start(unions: Seq<UnionView>, j: int) -> int
    decreases j,
{
    if j <= 0 {
        3
    } else {
        union_start(unions, j - 1) + union_len(unions[j - 1]) + 1
    }
}

/// `toks` writes the `spin` input `#tag, U = p | q, V, ...`: the tag, a comma,
/// and at least one union input, with a comma between two of them and one
/// more at the end when `trailing`.
pub open spec fn writes_spin_inputs(
    toks: Seq<Tok>,
    tag: Seq<char>,
    unions: Seq<UnionView>,
    trailing: bool,
) -> bool {
    &&& unions.len() > 0
    &&& punct_at(toks, 0, '#')
    &&& ident_at(toks, 1, tag)
    &&& punct_at(toks, 2, ',')
    &&& forall|j: int| 0 <= j < unions.len() ==> writes_union(toks, union_start(unions, j), #[trigger] unions[j])
    &&& forall|j: int|
        0 <= j < unions.len() - 1 ==> punct_at(toks, #[trigger] union_start(unions, j + 1) - 1, ',')
    &&& toks.len() == union_start(unions, unions.len() as int) - 1 + (if trailing { 1int } else { 0int })
    &&& trailing ==> punct_at(toks, toks.len() - 1, ',')
}

/// Every name of the input can be read back.
pub open spec fn valid_spin_names(tag: Seq<char>, unions: Seq<UnionView>) -> bool {
    &&& is_lower_snake(tag)
    &&& !is_reserved_word(tag)
    &&& forall|j: int| 0 <= j < unions.len() ==> valid_union(#[trigger] unions[j])
}

/// Union inputs start after one another.
proof fn lemma_union_start_grows(unions: Seq<UnionView>, i: int, j: int)
    requires
        0 <= i <= j,
        forall|k: int| 0 <= k < unions.len() ==> union_len(#[trigger] unions[k]) >= 1,
        j <= unions.len(),
    ensures
        union_start(unions, i) + (j - i) * 2 <= union_start(unions, j),
    decreases j - i,
{
    if i < j {
        lemma_union_start_grows(unions, i, j - 1);
        assert(union_len(unions[j - 1]) >= 1);
    }
}

/// Reading the primitive types of a union written at `pos`, after the first
/// `k` of them, gives all of them and ends after the last.
proof fn lemma_written_fields(toks: Seq<Tok>, pos: int, name: Seq<char>, prims: Seq<Seq<char>>, k: int)
    requires
        writes_union(toks, pos, UnionView::New(name, prims)),
        valid_prims(prims),
        1 <= k <= prims.len(),
        pos >= 0,
        !punct_at(toks, pos + 2 * prims.len() + 1, '|'),
    ensures
        spec_more_fields(toks, (pos + 2 * k + 1) as nat, prims.take(k)) == Ok::<
            (Seq<Seq<char>>, nat),
            ParseError,
        >((prims, (pos + 2 * prims.len() + 1) as nat)),
    decreases prims.len() - k,
{
    let at = pos + 2 * k + 1;
    if k == prims.len() {
        assert(prims.take(k) =~= prims);
    } else {
        assert(field_sep_at(toks, pos, k));
        assert(field_at(toks, pos, k, prims[k]));
        assert(is_primitive_name(prims[k]) && !is_reserved_word(prims[k]));
        assert(spec_primitive(toks, (at + 1) as nat) == Ok::<(Seq<char>, nat), ParseError>(
            (prims[k], (at + 2) as nat),
        ));
        assert(prims.take(k).push(prims[k]) =~= prims.take(k + 1));
        lemma_written_fields(toks, pos, name, prims, k + 1);
    }
}

/// A union input written at `pos`, followed by something other than `=` and
/// `|`, is read back from `pos` and ends after it.
proof fn lemma_written_union(toks: Seq<Tok>, pos: int, u: UnionView)
    requires
        pos >= 0,
        writes_union(toks, pos, u),
        valid_union(u),
        !punct_at(toks, pos + union_len(u), '|'),
        !punct_at(toks, pos + union_len(u), '='),
    ensures
        spec_union_input(toks, pos as nat) == Ok::<(UnionView, nat), ParseError>(
            (u, (pos + union_len(u)) as nat),
        ),
{
    match u {
        UnionView::InScope(name) => {
            assert(spec_upper_camel(toks, pos as nat) == Ok::<(Seq<char>, nat), ParseError>(
                (name, (pos + 1) as nat),
            ));
        },
        UnionView::New(name, prims) => {
            assert(spec_upper_camel(toks, pos as nat) == Ok::<(Seq<char>, nat), ParseError>(
                (name, (pos + 1) as nat),
            ));
            assert(field_at(toks, pos, 0, prims[0]));
            assert(is_primitive_name(prims[0]) && !is_reserved_word(prims[0]));
            assert(spec_primitive(toks, (pos + 2) as nat) == Ok::<(Seq<char>, nat), ParseError>(
                (prims[0], (pos + 3) as nat),
            ));
            assert(seq![prims[0]] =~= prims.take(1));
            lemma_written_fields(toks, pos, name, prims, 1);
        },
    }
}

/// Reading the union inputs after the `j`-th from the comma before them
/// gives all of them.
proof fn lemma_written_unions(
    toks: Seq<Tok>,
    tag: Seq<char>,
    unions: Seq<UnionView>,
    trailing: bool,
    j: int,
)
    requires
        writes_spin_inputs(toks, tag, unions, trailing),
        valid_spin_names(tag, unions),
        1 <= j <= unions.len(),
    ensures
        spec_more_unions(toks, (union_start(unions, j) - 1) as nat, unions.take(j)) == Ok::<
            Seq<UnionView>,
            ParseError,
        >(unions),
    decreases unions.len() - j,
{
    assert forall|k: int| 0 <= k < unions.len() implies union_len(#[trigger] unions[k]) >= 1 by {
        match unions[k] {
            UnionView::InScope(_) => {},
            UnionView::New(_, prims) => {},
        }
    }
    lemma_union_start_grows(unions, 0, j);
    let pos = union_start(unions, j) - 1;
    if j == unions.len() {
        assert(unions.take(j) =~= unions);
    } else {
        assert(punct_at(toks, pos, ',')) by {
            assert(union_start(unions, j) - 1 == union_start(unions, (j - 1) + 1) - 1);
        }
        let start = union_start(unions, j);
        let u = unions[j];
        assert(writes_union(toks, start, u));
        assert(valid_union(u));
        assert(union_start(unions, j + 1) == start + union_len(u) + 1);
        if j + 1 < unions.len() {
            assert(punct_at(toks, union_start(unions, j + 1) - 1, ','));
        } else if trailing {
            assert(punct_at(toks, toks.len() - 1, ','));
        }
        lemma_written_union(toks, start, u);
        assert(unions.take(j).push(u) =~= unions.take(j + 1));
        lemma_written_unions(toks, tag, unions, trailing, j + 1);
    }
}

/// The `spin` macro reads back the input it is written with:
/// `#tag, U = p | q, V, ...`, with or without one trailing comma, gives
/// exactly that tag and those unions, in order, when the tag is lower snake
/// case, the unions' names upper camel case, the fields' names primitive
/// types, and none of them a reserved word.
pub proof fn law_spin_inputs_read_back(
    toks: Seq<Tok>,
    tag: Seq<char>,
    unions: Seq<UnionView>,
    trailing: bool,
)
    requires
        writes_spin_inputs(toks, tag, unions, trailing),
        valid_spin_names(tag, unions),
    ensures
        spec_spin_inputs(toks) == Ok::<(Seq<char>, Seq<UnionView>), ParseError>((tag, unions)),
{
    assert(spec_crate_tag(toks, 0) == Ok::<(Seq<char>, nat), ParseError>((tag, 2)));
    assert forall|k: int| 0 <= k < unions.len() implies union_len(#[trigger] unions[k]) >= 1 by {
        match unions[k] {
            UnionView::InScope(_) => {},
            UnionView::New(_, prims) => {},
        }
    }
    let u = unions[0];
    assert(writes_union(toks, 3, u));
    assert(valid_union(u));
    lemma_union_start_grows(unions, 1, unions.len() as int);
    assert(union_start(unions, 1) == 3 + union_len(u) + 1);
    if unions.len() > 1 {
        assert(punct_at(toks, union_start(unions, 1int) - 1, ','));
    }
    lemma_written_union(toks, 3, u);
    assert(seq![u] =~= unions.take(1));
    lemma_written_unions(toks, tag, unions, trailing, 1);
}

/// The number of tokens an item of the general input is written with.
pub open spec fn raw_len(x: RawView) -> int {
    match x {
        RawView::UnionInScope(_) => 1,
        RawView::MapFnInScope(_) => 1,
        RawView::NewUnion(_, prims) => 2 * prims.len() + 1int,
    }
}

/// `toks` writes the item `x` at `pos`: `f` for a map in scope, `U` for a
/// union in scope, `U = p | q ...` for a union defined here.
pub open spec fn writes_raw(toks: Seq<Tok>, pos: int, x: RawView) -> bool {
    match x {
        RawView::UnionInScope(name) => ident_at(toks, pos, name),
        RawView::MapFnInScope(name) => ident_at(toks, pos, name),
        RawView::NewUnion(name, prims) => writes_union(toks, pos, UnionView::New(name, prims)),
    }
}

/// The names of an item can be read back as that item: a map's name is of
/// lower snake case, a union's of upper camel case, the fields' names are
/// primitive types, and none of them is a reserved word.
pub open spec fn valid_raw(x: RawView) -> bool {
    match x {
        RawView::MapFnInScope(name) => spec_case(name) == Case::LowerSnake && !is_reserved_word(name),
        RawView::UnionInScope(name) => spec_case(name) == Case::UpperCamel && !is_reserved_word(name),
        RawView::NewUnion(name, prims) => spec_case(name) == Case::UpperCamel && !is_reserved_word(
            name,
        ) && valid_prims(prims),
    }
}

/// Where the `j`-th item starts when the items are written one after another
/// from position 3 on, a comma after each.
pub open spec fn raw_start(items: Seq<RawView>, j: int) -> int
    decreases j,
{
    if j <= 0 {
        3
    } else {
        raw_start(items, j - 1) + raw_len(items[j - 1]) + 1
    }
}

/// `toks` writes the general `spin` input `#tag, x, y, ...`: the tag, a
/// comma, and at least one item, with a comma between two of them and one
/// more at the end when `trailing`.
pub open spec fn writes_raw_inputs(toks: Seq<Tok>, tag: Seq<char>, items: Seq<RawView>, trailing: bool) -> bool {
    &&& items.len() > 0
    &&& punct_at(toks, 0, '#')
    &&& ident_at(toks, 1, tag)
    &&& punct_at(toks, 2, ',')
    &&& forall|j: int| 0 <= j < items.len() ==> writes_raw(toks, raw_start(items, j), #[trigger] items[j])
    &&& forall|j: int|
        0 <= j < items.len() - 1 ==> punct_at(toks, #[trigger] raw_start(items, j + 1) - 1, ',')
    &&& toks.len() == raw_start(items, items.len() as int) - 1 + (if trailing { 1int } else { 0int })
    &&& trailing ==> punct_at(toks, toks.len() - 1, ',')
}

/// Items start after one another.
proof fn lemma_raw_start_grows(items: Seq<RawView>, i: int, j: int)
    requires
        0 <= i <= j <= items.len(),
    ensures
        union_start_gap(raw_start(items, i), raw_start(items, j), j - i),
    decreases j - i,
{
    if i < j {
        lemma_raw_start_grows(items, i, j - 1);
        match items[j - 1] {
            RawView::NewUnion(_, prims) => {},
            _ => {},
        }
    }
}

/// `b` lies at least two positions per step after `a`.
pub open spec fn union_start_gap(a: int, b: int, steps: int) -> bool {
    a + 2 * steps <= b
}

/// An item written at `pos`, followed by a comma or the end, is read back
/// from `pos` and ends after it.
proof fn lemma_written_raw(toks: Seq<Tok>, pos: int, x: RawView)
    requires
        pos >= 0,
        writes_raw(toks, pos, x),
        valid_raw(x),
        pos + raw_len(x) >= toks.len() || punct_at(toks, pos + raw_len(x), ','),
    ensures
        spec_raw_input(toks, pos as nat) == Ok::<(RawView, nat), ParseError>((x, (pos + raw_len(x)) as nat)),
{
    match x {
        RawView::UnionInScope(name) => {},
        RawView::MapFnInScope(name) => {},
        RawView::NewUnion(name, prims) => {
            assert(field_at(toks, pos, 0, prims[0]));
            assert(is_primitive_name(prims[0]) && !is_reserved_word(prims[0]));
            assert(spec_primitive(toks, (pos + 2) as nat) == Ok::<(Seq<char>, nat), ParseError>(
                (prims[0], (pos + 3) as nat),
            ));
            assert(seq![prims[0]] =~= prims.take(1));
            lemma_written_fields(toks, pos, name, prims, 1);
        },
    }
}

/// Reading the items after the `j`-th from the comma before them gives all
/// of them and ends at the end of the input.
#[verifier::rlimit(50)]
proof fn lemma_written_raws(toks: Seq<Tok>, tag: Seq<char>, items: Seq<RawView>, trailing: bool, j: int)
    requires
        writes_raw_inputs(toks, tag, items, trailing),
        forall|k: int| 0 <= k < items.len() ==> valid_raw(#[trigger] items[k]),
        1 <= j <= items.len(),
    ensures
        spec_more_raw(toks, (raw_start(items, j) - 1) as nat, items.take(j)) == Ok::<
            (Seq<RawView>, nat),
            ParseError,
        >((items, toks.len())),
    decreases items.len() - j,
{
    lemma_raw_start_grows(items, 0, j);
    let pos = raw_start(items, j) - 1;
    if j == items.len() {
        assert(items.take(j) =~= items);
        if trailing {
            assert(punct_at(toks, toks.len() - 1, ','));
        }
    } else {
        assert(punct_at(toks, pos, ',')) by {
            assert(raw_start(items, j) - 1 == raw_start(items, (j - 1) + 1) - 1);
        }
        let start = raw_start(items, j);
        let x = items[j];
        assert(writes_raw(toks, start, x));
        assert(valid_raw(x));
        assert(raw_start(items, j + 1) == start + raw_len(x) + 1);
        lemma_raw_start_grows(items, j + 1, items.len() as int);
        if j + 1 < items.len() {
            assert(punct_at(toks, raw_start(items, j + 1) - 1, ','));
        } else if trailing {
            assert(punct_at(toks, toks.len() - 1, ','));
        }
        lemma_written_raw(toks, start, x);
        assert(items.take(j).push(x) =~= items.take(j + 1));
        lemma_written_raws(toks, tag, items, trailing, j + 1);
    }
}

/// The general `spin` macro input is read back item by item:
/// `#tag, x, y, ...`, with or without one trailing comma, where each item is
/// a map in scope, a union in scope or a union defined here, gives that tag
/// and exactly those items in input order, and reads the whole input. The
/// items are then filed by kind, each kind in input order (`sorts`), and no
/// item is lost or filed twice.
pub proof fn law_raw_inputs_read_back(toks: Seq<Tok>, tag: Seq<char>, items: Seq<RawView>, trailing: bool)
    requires
        writes_raw_inputs(toks, tag, items, trailing),
        is_lower_snake(tag),
        !is_reserved_word(tag),
        forall|k: int| 0 <= k < items.len() ==> valid_raw(#[trigger] items[k]),
    ensures
        spec_raw_inputs(toks) == Ok::<(Seq<char>, Seq<RawView>, nat), ParseError>(
            (tag, items, toks.len()),
        ),
        scoped_unions(items).len() + defined_unions(items).len() + scoped_maps(items).len()
            == items.len(),
{
    assert(spec_crate_tag(toks, 0) == Ok::<(Seq<char>, nat), ParseError>((tag, 2)));
    let x = items[0];
    assert(writes_raw(toks, 3, x));
    assert(valid_raw(x));
    lemma_raw_start_grows(items, 1, items.len() as int);
    assert(raw_start(items, 1) == 3 + raw_len(x) + 1);
    if items.len() > 1 {
        assert(punct_at(toks, raw_start(items, 1int) - 1, ','));
    } else if trailing {
        assert(punct_at(toks, toks.len() - 1, ','));
    }
    lemma_written_raw(toks, 3, x);
    assert(seq![x] =~= items.take(1));
    lemma_written_raws(toks, tag, items, trailing, 1);
    lemma_items_filed_once(items);
}

/// Filing items by kind keeps their number.
proof fn lemma_items_filed_once(items: Seq<RawView>)
    ensures
        scoped_unions(items).len() + defined_unions(items).len() + scoped_maps(items).len()
            == items.len(),
    decreases items.len(),
{
    if items.len() > 0 {
        lemma_items_filed_once(items.drop_last());
    }
}

/// The general `spin` input needs an item after the tag's comma: `#tag,`
/// alone is refused where the item is expected.
pub proof fn law_raw_inputs_need_an_item(toks: Seq<Tok>, tag: Seq<char>)
    requires
        toks.len() == 3,
        punct_at(toks, 0, '#'),
        ident_at(toks, 1, tag),
        punct_at(toks, 2, ','),
    ensures
        spec_raw_inputs(toks) is Err,
{
}

/// Reading the items from the comma before the `k`-th on, when the `j`-th
/// is refused and those before it are read back, gives the refusal of the
/// `j`-th.
#[verifier::rlimit(50)]
proof fn lemma_written_raws_until(
    toks: Seq<Tok>,
    tag: Seq<char>,
    items: Seq<RawView>,
    trailing: bool,
    k: int,
    j: int,
    e: ParseError,
)
    requires
        writes_raw_inputs(toks, tag, items, trailing),
        1 <= k <= j < items.len(),
        forall|i: int| 0 <= i < j ==> valid_raw(#[trigger] items[i]),
        spec_raw_input(toks, raw_start(items, j) as nat) == Err::<(RawView, nat), ParseError>(e),
    ensures
        spec_more_raw(toks, (raw_start(items, k) - 1) as nat, items.take(k)) == Err::<
            (Seq<RawView>, nat),
            ParseError,
        >(e),
    decreases j - k,
{
    lemma_raw_start_grows(items, 0, k);
    lemma_raw_start_grows(items, k, items.len() as int);
    let pos = raw_start(items, k) - 1;
    assert(punct_at(toks, pos, ',')) by {
        assert(raw_start(items, k) - 1 == raw_start(items, (k - 1) + 1) - 1);
    }
    let start = raw_start(items, k);
    let x = items[k];
    assert(raw_start(items, k + 1) == start + raw_len(x) + 1);
    match x {
        RawView::NewUnion(_, prims) => {},
        _ => {},
    }
    assert(start < toks.len());
    if k < j {
        assert(writes_raw(toks, start, x));
        assert(valid_raw(x));
        lemma_raw_start_grows(items, k + 1, items.len() as int);
        assert(punct_at(toks, raw_start(items, k + 1) - 1, ','));
        lemma_written_raw(toks, start, x);
        assert(items.take(k).push(x) =~= items.take(k + 1));
        lemma_written_raws_until(toks, tag, items, trailing, k + 1, j, e);
    }
}

/// The general `spin` input refuses a primitive type where an item stands:
/// when the items before it are read back, an item written as the name of a
/// primitive type (not a reserved word) makes the whole input fail there.
pub proof fn law_raw_inputs_refuse_primitive_item(
    toks: Seq<Tok>,
    tag: Seq<char>,
    items: Seq<RawView>,
    trailing: bool,
    j: int,
    name: Seq<char>,
)
    requires
        writes_raw_inputs(toks, tag, items, trailing),
        is_lower_snake(tag),
        !is_reserved_word(tag),
        0 <= j < items.len(),
        forall|i: int| 0 <= i < j ==> valid_raw(#[trigger] items[i]),
        items[j] == RawView::MapFnInScope(name),
        spec_case(name) == Case::SupportedPrimitive || spec_case(name) == Case::UnsupportedPrimitive,
        !is_reserved_word(name),
    ensures
        spec_raw_inputs(toks) == Err::<(Seq<char>, Seq<RawView>, nat), ParseError>(
            ParseError { at: raw_start(items, j) as usize, kind: ParseErrorKind::PrimitiveNotAllowed },
        ),
{
    let e = ParseError { at: raw_start(items, j) as usize, kind: ParseErrorKind::PrimitiveNotAllowed };
    assert(writes_raw(toks, raw_start(items, j), items[j]));
    lemma_raw_start_grows(items, 0, j);
    assert(spec_raw_input(toks, raw_start(items, j) as nat) == Err::<(RawView, nat), ParseError>(e));
    assert(spec_crate_tag(toks, 0) == Ok::<(Seq<char>, nat), ParseError>((tag, 2)));
    if j > 0 {
        let x = items[0];
        assert(writes_raw(toks, 3, x));
        assert(valid_raw(x));
        lemma_raw_start_grows(items, 1, items.len() as int);
        assert(raw_start(items, 1) == 3 + raw_len(x) + 1);
        assert(punct_at(toks, raw_start(items, 1int) - 1, ','));
        lemma_written_raw(toks, 3, x);
        assert(seq![x] =~= items.take(1));
        lemma_written_raws_until(toks, tag, items, trailing, 1, j, e);
    }
}

} // verus!
