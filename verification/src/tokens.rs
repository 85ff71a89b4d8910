//! Token sequences, and the small parsers that the macro grammars are built
//! from.
//!
//! A macro's input arrives as a flat sequence of tokens: identifiers,
//! punctuation characters, literals and delimited groups. Positions are
//! indices into the sequence; the position equal to its length is the end of
//! the input.
use vstd::prelude::*;
use crate::{camel_word, spec_camel_word};
use crate::case::{
    heck_snake, is_supported_primitive, is_unsupported_primitive, to_snake_case, LowerSnakeIdent,
    PrimitiveIdent, UpperCamelIdent,
};
use crate::text::str_eq;

verus! {

/// A token of a macro's input.
#[derive(Debug, Clone)]
pub enum Tok {
    /// An identifier or keyword, by its text.
    Ident(String),
    /// A single punctuation character.
    Punct(char),
    /// A literal, by its text.
    Literal(String),
    /// A delimited group, whatever it holds.
    Group,
}

/// What a parser expected where it failed.
#[derive(Debug, Clone, Copy, PartialEq, Eq, Structural)]
pub enum ParseErrorKind {
    /// The given punctuation character.
    Punct(char),
    /// An identifier.
    Ident,
    /// An identifier, where a keyword stands.
    KeywordAsIdent,
    /// An identifier in lower snake case.
    LowerSnake,
    /// An identifier in upper camel case.
    UpperCamel,
    /// The name of a primitive type.
    Primitive,
    /// A union or map name, where a primitive type's name stands.
    PrimitiveNotAllowed,
    /// A union, map or primitive name, where an identifier of unknown case
    /// stands.
    UnknownCase,
    /// The end of the input.
    End,
}

/// A parse failure: the position of the offending token (the input's length
/// for its end) and what was expected there.
#[derive(Debug, Clone, Copy, PartialEq, Eq, Structural)]
pub struct ParseError {
    pub at: usize,
    pub kind: ParseErrorKind,
}

pub open spec fn perr<T>(at: nat, kind: ParseErrorKind) -> Result<T, ParseError> {
    Err(ParseError { at: at as usize, kind })
}

/// The words that are not accepted as identifiers: `_` and Rust's keywords,
/// reserved words included.
pub open spec fn is_reserved_word(s: Seq<char>) -> bool {
    ||| s == "_"@ ||| s == "abstract"@ ||| s == "as"@ ||| s == "async"@ ||| s == "await"@
    ||| s == "become"@ ||| s == "box"@ ||| s == "break"@ ||| s == "const"@ ||| s == "continue"@
    ||| s == "crate"@ ||| s == "do"@ ||| s == "dyn"@ ||| s == "else"@ ||| s == "enum"@
    ||| s == "extern"@ ||| s == "false"@ ||| s == "final"@ ||| s == "fn"@ ||| s == "for"@
    ||| s == "if"@ ||| s == "impl"@ ||| s == "in"@ ||| s == "let"@ ||| s == "loop"@
    ||| s == "macro"@ ||| s == "match"@ ||| s == "mod"@ ||| s == "move"@ ||| s == "mut"@
    ||| s == "override"@ ||| s == "priv"@ ||| s == "pub"@ ||| s == "ref"@ ||| s == "return"@
    ||| s == "Self"@ ||| s == "self"@ ||| s == "static"@ ||| s == "struct"@ ||| s == "super"@
    ||| s == "trait"@ ||| s == "true"@ ||| s == "try"@ ||| s == "type"@ ||| s == "typeof"@
    ||| s == "unsafe"@ ||| s == "unsized"@ ||| s == "use"@ ||| s == "virtual"@ ||| s == "where"@
    ||| s == "while"@ ||| s == "yield"@
}

/// Whether `s` is one of the reserved words.
pub fn reserved_word(s: &str) -> (r: bool)
    ensures
        r == is_reserved_word(s@),
{
    str_eq(s, "_") || str_eq(s, "abstract") || str_eq(s, "as") || str_eq(s, "async") || str_eq(
        s,
        "await",
    ) || str_eq(s, "become") || str_eq(s, "box") || str_eq(s, "break") || str_eq(s, "const")
        || str_eq(s, "continue") || str_eq(s, "crate") || str_eq(s, "do") || str_eq(s, "dyn")
        || str_eq(s, "else") || str_eq(s, "enum") || str_eq(s, "extern") || str_eq(s, "false")
        || str_eq(s, "final") || str_eq(s, "fn") || str_eq(s, "for") || str_eq(s, "if") || str_eq(
        s,
        "impl",
    ) || str_eq(s, "in") || str_eq(s, "let") || str_eq(s, "loop") || str_eq(s, "macro")
        || str_eq(s, "match") || str_eq(s, "mod") || str_eq(s, "move") || str_eq(s, "mut")
        || str_eq(s, "override") || str_eq(s, "priv") || str_eq(s, "pub") || str_eq(s, "ref")
        || str_eq(s, "return") || str_eq(s, "Self") || str_eq(s, "self") || str_eq(s, "static")
        || str_eq(s, "struct") || str_eq(s, "super") || str_eq(s, "trait") || str_eq(s, "true")
        || str_eq(s, "try") || str_eq(s, "type") || str_eq(s, "typeof") || str_eq(s, "unsafe")
        || str_eq(s, "unsized") || str_eq(s, "use") || str_eq(s, "virtual") || str_eq(s, "where")
        || str_eq(s, "while") || str_eq(s, "yield")
}

/// The names of the primitive types.
pub open spec fn is_primitive_name(s: Seq<char>) -> bool {
    ||| s == "bool"@ ||| s == "char"@ ||| s == "f32"@ ||| s == "f64"@ ||| s == "i8"@
    ||| s == "i16"@ ||| s == "i32"@ ||| s == "i64"@ ||| s == "i128"@ ||| s == "isize"@
    ||| s == "str"@ ||| s == "u8"@ ||| s == "u16"@ ||| s == "u32"@ ||| s == "u64"@
    ||| s == "u128"@ ||| s == "usize"@
}

/// Whether `s` names a primitive type.
pub fn primitive_name(s: &str) -> (r: bool)
    ensures
        r == is_primitive_name(s@),
{
    str_eq(s, "bool") || str_eq(s, "char") || str_eq(s, "f32") || str_eq(s, "f64") || str_eq(
        s,
        "i8",
    ) || str_eq(s, "i16") || str_eq(s, "i32") || str_eq(s, "i64") || str_eq(s, "i128") || str_eq(
        s,
        "isize",
    ) || str_eq(s, "str") || str_eq(s, "u8") || str_eq(s, "u16") || str_eq(s, "u32") || str_eq(
        s,
        "u64",
    ) || str_eq(s, "u128") || str_eq(s, "usize")
}

/// A lower snake case name is one that heck's snake case conversion leaves
/// unchanged.
pub open spec fn is_lower_snake(s: Seq<char>) -> bool {
    heck_snake(s) == s
}

/// An upper camel case name is one that capitalizing as a single word leaves
/// unchanged.
pub open spec fn is_upper_camel(s: Seq<char>) -> bool {
    spec_camel_word(s) == s
}

/// The token at `pos` is the punctuation character `c`.
pub open spec fn spec_peek_punct(toks: Seq<Tok>, pos: nat, c: char) -> bool {
    pos < toks.len() && toks[pos as int] == Tok::Punct(c)
}

/// The punctuation character `c` at `pos`; the position after it.
pub open spec fn spec_punct(toks: Seq<Tok>, pos: nat, c: char) -> Result<nat, ParseError> {
    if spec_peek_punct(toks, pos, c) {
        Ok(pos + 1)
    } else {
        perr(pos, ParseErrorKind::Punct(c))
    }
}

/// An identifier that is not a reserved word at `pos`; its name and the
/// position after it.
pub open spec fn spec_ident(toks: Seq<Tok>, pos: nat) -> Result<(Seq<char>, nat), ParseError> {
    if pos < toks.len() && toks[pos as int] is Ident {
        let name = toks[pos as int]->Ident_0@;
        if is_reserved_word(name) {
            perr(pos, ParseErrorKind::KeywordAsIdent)
        } else {
            Ok((name, pos + 1))
        }
    } else {
        perr(pos, ParseErrorKind::Ident)
    }
}

/// An identifier at `pos` whose name satisfies `ok`; otherwise the failure
/// `kind` at the identifier.
pub open spec fn spec_ident_with(
    toks: Seq<Tok>,
    pos: nat,
    ok: bool,
    kind: ParseErrorKind,
) -> Result<(Seq<char>, nat), ParseError> {
    match spec_ident(toks, pos) {
        Err(e) => Err(e),
        Ok((name, next)) => if ok {
            Ok((name, next))
        } else {
            perr(pos, kind)
        },
    }
}

/// A lower snake case identifier at `pos`.
pub open spec fn spec_lower_snake(toks: Seq<Tok>, pos: nat) -> Result<(Seq<char>, nat), ParseError> {
    spec_ident_with(
        toks,
        pos,
        spec_ident(toks, pos) is Ok && is_lower_snake(spec_ident(toks, pos)->Ok_0.0),
        ParseErrorKind::LowerSnake,
    )
}

/// An upper camel case identifier at `pos`.
pub open spec fn spec_upper_camel(toks: Seq<Tok>, pos: nat) -> Result<(Seq<char>, nat), ParseError> {
    spec_ident_with(
        toks,
        pos,
        spec_ident(toks, pos) is Ok && is_upper_camel(spec_ident(toks, pos)->Ok_0.0),
        ParseErrorKind::UpperCamel,
    )
}

/// A primitive type name at `pos`.
pub open spec fn spec_primitive(toks: Seq<Tok>, pos: nat) -> Result<(Seq<char>, nat), ParseError> {
    spec_ident_with(
        toks,
        pos,
        spec_ident(toks, pos) is Ok && is_primitive_name(spec_ident(toks, pos)->Ok_0.0),
        ParseErrorKind::Primitive,
    )
}

/// A crate tag `#name` at `pos`, `name` in lower snake case.
pub open spec fn spec_crate_tag(toks: Seq<Tok>, pos: nat) -> Result<(Seq<char>, nat), ParseError> {
    match spec_punct(toks, pos, '#') {
        Err(e) => Err(e),
        Ok(next) => spec_lower_snake(toks, next),
    }
}

/// Whether the token at `pos` is the punctuation character `c`.
pub fn peek_punct(toks: &Vec<Tok>, pos: usize, c: char) -> (r: bool)
    ensures
        r == spec_peek_punct(toks@, pos as nat, c),
{
    if pos < toks.len() {
        match &toks[pos] {
            Tok::Punct(p) => *p == c,
            _ => false,
        }
    } else {
        false
    }
}

/// Consumes the punctuation character `c` at `pos`.
pub fn parse_punct(toks: &Vec<Tok>, pos: usize, c: char) -> (r: Result<usize, ParseError>)
    ensures
        r is Ok <==> spec_punct(toks@, pos as nat, c) is Ok,
        r matches Ok(next) ==> spec_punct(toks@, pos as nat, c) == Ok::<nat, ParseError>(next as nat),
        r matches Err(e) ==> spec_punct(toks@, pos as nat, c) == Err::<nat, ParseError>(e),
{
    if pos < toks.len() && peek_punct(toks, pos, c) {
        Ok(pos + 1)
    } else {
        Err(ParseError { at: pos, kind: ParseErrorKind::Punct(c) })
    }
}

/// Consumes an identifier that is not a reserved word at `pos`.
pub fn parse_ident(toks: &Vec<Tok>, pos: usize) -> (r: Result<(String, usize), ParseError>)
    ensures
        r is Ok <==> spec_ident(toks@, pos as nat) is Ok,
        r matches Ok((name, next)) ==> spec_ident(toks@, pos as nat) == Ok::<
            (Seq<char>, nat),
            ParseError,
        >((name@, next as nat)),
        r matches Err(e) ==> spec_ident(toks@, pos as nat) == Err::<(Seq<char>, nat), ParseError>(e),
{
    if pos < toks.len() {
        match &toks[pos] {
            Tok::Ident(name) => {
                if reserved_word(name.as_str()) {
                    Err(ParseError { at: pos, kind: ParseErrorKind::KeywordAsIdent })
                } else {
                    Ok((name.clone(), pos + 1))
                }
            },
            _ => Err(ParseError { at: pos, kind: ParseErrorKind::Ident }),
        }
    } else {
        Err(ParseError { at: pos, kind: ParseErrorKind::Ident })
    }
}

impl LowerSnakeIdent {
    /// Consumes a lower snake case identifier at `pos`.
    pub fn parse(toks: &Vec<Tok>, pos: usize) -> (r: Result<(LowerSnakeIdent, usize), ParseError>)
        ensures
            r is Ok <==> spec_lower_snake(toks@, pos as nat) is Ok,
            r matches Ok((id, next)) ==> spec_lower_snake(toks@, pos as nat) == Ok::<
                (Seq<char>, nat),
                ParseError,
            >((id.0@, next as nat)),
            r matches Err(e) ==> spec_lower_snake(toks@, pos as nat) == Err::<
                (Seq<char>, nat),
                ParseError,
            >(e),
    {
        let (name, next) = parse_ident(toks, pos)?;
        let snake = to_snake_case(name.as_str());
        if !str_eq(snake.as_str(), name.as_str()) {
            return Err(ParseError { at: pos, kind: ParseErrorKind::LowerSnake });
        }
        Ok((LowerSnakeIdent(name), next))
    }
}

impl UpperCamelIdent {
    /// Consumes an upper camel case identifier at `pos`.
    pub fn parse(toks: &Vec<Tok>, pos: usize) -> (r: Result<(UpperCamelIdent, usize), ParseError>)
        ensures
            r is Ok <==> spec_upper_camel(toks@, pos as nat) is Ok,
            r matches Ok((id, next)) ==> spec_upper_camel(toks@, pos as nat) == Ok::<
                (Seq<char>, nat),
                ParseError,
            >((id.0@, next as nat)),
            r matches Err(e) ==> spec_upper_camel(toks@, pos as nat) == Err::<
                (Seq<char>, nat),
                ParseError,
            >(e),
    {
        let (name, next) = parse_ident(toks, pos)?;
        let camel = camel_word(name.as_str());
        if !str_eq(name.as_str(), camel.as_str()) {
            return Err(ParseError { at: pos, kind: ParseErrorKind::UpperCamel });
        }
        Ok((UpperCamelIdent(name), next))
    }
}

impl PrimitiveIdent {
    /// Consumes a primitive type name at `pos`.
    pub fn parse(toks: &Vec<Tok>, pos: usize) -> (r: Result<(PrimitiveIdent, usize), ParseError>)
        ensures
            r is Ok <==> spec_primitive(toks@, pos as nat) is Ok,
            r matches Ok((id, next)) ==> spec_primitive(toks@, pos as nat) == Ok::<
                (Seq<char>, nat),
                ParseError,
            >((id.0@, next as nat)),
            r matches Err(e) ==> spec_primitive(toks@, pos as nat) == Err::<
                (Seq<char>, nat),
                ParseError,
            >(e),
    {
        let (name, next) = parse_ident(toks, pos)?;
        if !primitive_name(name.as_str()) {
            return Err(ParseError { at: pos, kind: ParseErrorKind::Primitive });
        }
        Ok((PrimitiveIdent(name), next))
    }
}

/// No primitive type's name is a reserved word.
#[verifier::rlimit(100)]
proof fn lemma_primitives_not_reserved(s: Seq<char>)
    requires
        is_primitive_name(s),
    ensures
        !is_reserved_word(s),
{
    reveal_strlit("_");
    reveal_strlit("abstract");
    reveal_strlit("as");
    reveal_strlit("async");
    reveal_strlit("await");
    reveal_strlit("become");
    reveal_strlit("box");
    reveal_strlit("break");
    reveal_strlit("const");
    reveal_strlit("continue");
    reveal_strlit("crate");
    reveal_strlit("do");
    reveal_strlit("dyn");
    reveal_strlit("else");
    reveal_strlit("enum");
    reveal_strlit("extern");
    reveal_strlit("false");
    reveal_strlit("final");
    reveal_strlit("fn");
    reveal_strlit("for");
    reveal_strlit("if");
    reveal_strlit("impl");
    reveal_strlit("in");
    reveal_strlit("let");
    reveal_strlit("loop");
    reveal_strlit("macro");
    reveal_strlit("match");
    reveal_strlit("mod");
    reveal_strlit("move");
    reveal_strlit("mut");
    reveal_strlit("override");
    reveal_strlit("priv");
    reveal_strlit("pub");
    reveal_strlit("ref");
    reveal_strlit("return");
    reveal_strlit("Self");
    reveal_strlit("self");
    reveal_strlit("static");
    reveal_strlit("struct");
    reveal_strlit("super");
    reveal_strlit("trait");
    reveal_strlit("true");
    reveal_strlit("try");
    reveal_strlit("type");
    reveal_strlit("typeof");
    reveal_strlit("unsafe");
    reveal_strlit("unsized");
    reveal_strlit("use");
    reveal_strlit("virtual");
    reveal_strlit("where");
    reveal_strlit("while");
    reveal_strlit("yield");
    reveal_strlit("bool");
    reveal_strlit("char");
    reveal_strlit("f32");
    reveal_strlit("f64");
    reveal_strlit("i8");
    reveal_strlit("i16");
    reveal_strlit("i32");
    reveal_strlit("i64");
    reveal_strlit("i128");
    reveal_strlit("isize");
    reveal_strlit("str");
    reveal_strlit("u8");
    reveal_strlit("u16");
    reveal_strlit("u32");
    reveal_strlit("u64");
    reveal_strlit("u128");
    reveal_strlit("usize");
    if s == "bool"@ {
        assert(s.len() == 4);
        assert(s[0] != "else"@[0]);
        assert(s[0] != "enum"@[0]);
        assert(s[0] != "impl"@[0]);
        assert(s[0] != "loop"@[0]);
        assert(s[0] != "move"@[0]);
        assert(s[0] != "priv"@[0]);
        assert(s[0] != "Self"@[0]);
        assert(s[0] != "self"@[0]);
        assert(s[0] != "true"@[0]);
        assert(s[0] != "type"@[0]);
    }
    if s == "char"@ {
        assert(s.len() == 4);
        assert(s[0] != "else"@[0]);
        assert(s[0] != "enum"@[0]);
        assert(s[0] != "impl"@[0]);
        assert(s[0] != "loop"@[0]);
        assert(s[0] != "move"@[0]);
        assert(s[0] != "priv"@[0]);
        assert(s[0] != "Self"@[0]);
        assert(s[0] != "self"@[0]);
        assert(s[0] != "true"@[0]);
        assert(s[0] != "type"@[0]);
    }
    if s == "f32"@ {
        assert(s.len() == 3);
        assert(s[0] != "box"@[0]);
        assert(s[0] != "dyn"@[0]);
        assert(s[1] != "for"@[1]);
        assert(s[0] != "let"@[0]);
        assert(s[0] != "mod"@[0]);
        assert(s[0] != "mut"@[0]);
        assert(s[0] != "pub"@[0]);
        assert(s[0] != "ref"@[0]);
        assert(s[0] != "try"@[0]);
        assert(s[0] != "use"@[0]);
    }
    if s == "f64"@ {
        assert(s.len() == 3);
        assert(s[0] != "box"@[0]);
        assert(s[0] != "dyn"@[0]);
        assert(s[1] != "for"@[1]);
        assert(s[0] != "let"@[0]);
        assert(s[0] != "mod"@[0]);
        assert(s[0] != "mut"@[0]);
        assert(s[0] != "pub"@[0]);
        assert(s[0] != "ref"@[0]);
        assert(s[0] != "try"@[0]);
        assert(s[0] != "use"@[0]);
    }
    if s == "i8"@ {
        assert(s.len() == 2);
        assert(s[0] != "as"@[0]);
        assert(s[0] != "do"@[0]);
        assert(s[0] != "fn"@[0]);
        assert(s[1] != "if"@[1]);
        assert(s[1] != "in"@[1]);
    }
    if s == "i16"@ {
        assert(s.len() == 3);
        assert(s[0] != "box"@[0]);
        assert(s[0] != "dyn"@[0]);
        assert(s[0] != "for"@[0]);
        assert(s[0] != "let"@[0]);
        assert(s[0] != "mod"@[0]);
        assert(s[0] != "mut"@[0]);
        assert(s[0] != "pub"@[0]);
        assert(s[0] != "ref"@[0]);
        assert(s[0] != "try"@[0]);
        assert(s[0] != "use"@[0]);
    }
    if s == "i32"@ {
        assert(s.len() == 3);
        assert(s[0] != "box"@[0]);
        assert(s[0] != "dyn"@[0]);
        assert(s[0] != "for"@[0]);
        assert(s[0] != "let"@[0]);
        assert(s[0] != "mod"@[0]);
        assert(s[0] != "mut"@[0]);
        assert(s[0] != "pub"@[0]);
        assert(s[0] != "ref"@[0]);
        assert(s[0] != "try"@[0]);
        assert(s[0] != "use"@[0]);
    }
    if s == "i64"@ {
        assert(s.len() == 3);
        assert(s[0] != "box"@[0]);
        assert(s[0] != "dyn"@[0]);
        assert(s[0] != "for"@[0]);
        assert(s[0] != "let"@[0]);
        assert(s[0] != "mod"@[0]);
        assert(s[0] != "mut"@[0]);
        assert(s[0] != "pub"@[0]);
        assert(s[0] != "ref"@[0]);
        assert(s[0] != "try"@[0]);
        assert(s[0] != "use"@[0]);
    }
    if s == "i128"@ {
        assert(s.len() == 4);
        assert(s[0] != "else"@[0]);
        assert(s[0] != "enum"@[0]);
        assert(s[1] != "impl"@[1]);
        assert(s[0] != "loop"@[0]);
        assert(s[0] != "move"@[0]);
        assert(s[0] != "priv"@[0]);
        assert(s[0] != "Self"@[0]);
        assert(s[0] != "self"@[0]);
        assert(s[0] != "true"@[0]);
        assert(s[0] != "type"@[0]);
    }
    if s == "isize"@ {
        assert(s.len() == 5);
        assert(s[0] != "async"@[0]);
        assert(s[0] != "await"@[0]);
        assert(s[0] != "break"@[0]);
        assert(s[0] != "const"@[0]);
        assert(s[0] != "crate"@[0]);
        assert(s[0] != "false"@[0]);
        assert(s[0] != "final"@[0]);
        assert(s[0] != "macro"@[0]);
        assert(s[0] != "match"@[0]);
        assert(s[0] != "super"@[0]);
        assert(s[0] != "trait"@[0]);
        assert(s[0] != "where"@[0]);
        assert(s[0] != "while"@[0]);
        assert(s[0] != "yield"@[0]);
    }
    if s == "str"@ {
        assert(s.len() == 3);
        assert(s[0] != "box"@[0]);
        assert(s[0] != "dyn"@[0]);
        assert(s[0] != "for"@[0]);
        assert(s[0] != "let"@[0]);
        assert(s[0] != "mod"@[0]);
        assert(s[0] != "mut"@[0]);
        assert(s[0] != "pub"@[0]);
        assert(s[0] != "ref"@[0]);
        assert(s[0] != "try"@[0]);
        assert(s[0] != "use"@[0]);
    }
    if s == "u8"@ {
        assert(s.len() == 2);
        assert(s[0] != "as"@[0]);
        assert(s[0] != "do"@[0]);
        assert(s[0] != "fn"@[0]);
        assert(s[0] != "if"@[0]);
        assert(s[0] != "in"@[0]);
    }
    if s == "u16"@ {
        assert(s.len() == 3);
        assert(s[0] != "box"@[0]);
        assert(s[0] != "dyn"@[0]);
        assert(s[0] != "for"@[0]);
        assert(s[0] != "let"@[0]);
        assert(s[0] != "mod"@[0]);
        assert(s[0] != "mut"@[0]);
        assert(s[0] != "pub"@[0]);
        assert(s[0] != "ref"@[0]);
        assert(s[0] != "try"@[0]);
        assert(s[1] != "use"@[1]);
    }
    if s == "u32"@ {
        assert(s.len() == 3);
        assert(s[0] != "box"@[0]);
        assert(s[0] != "dyn"@[0]);
        assert(s[0] != "for"@[0]);
        assert(s[0] != "let"@[0]);
        assert(s[0] != "mod"@[0]);
        assert(s[0] != "mut"@[0]);
        assert(s[0] != "pub"@[0]);
        assert(s[0] != "ref"@[0]);
        assert(s[0] != "try"@[0]);
        assert(s[1] != "use"@[1]);
    }
    if s == "u64"@ {
        assert(s.len() == 3);
        assert(s[0] != "box"@[0]);
        assert(s[0] != "dyn"@[0]);
        assert(s[0] != "for"@[0]);
        assert(s[0] != "let"@[0]);
        assert(s[0] != "mod"@[0]);
        assert(s[0] != "mut"@[0]);
        assert(s[0] != "pub"@[0]);
        assert(s[0] != "ref"@[0]);
        assert(s[0] != "try"@[0]);
        assert(s[1] != "use"@[1]);
    }
    if s == "u128"@ {
        assert(s.len() == 4);
        assert(s[0] != "else"@[0]);
        assert(s[0] != "enum"@[0]);
        assert(s[0] != "impl"@[0]);
        assert(s[0] != "loop"@[0]);
        assert(s[0] != "move"@[0]);
        assert(s[0] != "priv"@[0]);
        assert(s[0] != "Self"@[0]);
        assert(s[0] != "self"@[0]);
        assert(s[0] != "true"@[0]);
        assert(s[0] != "type"@[0]);
    }
    if s == "usize"@ {
        assert(s.len() == 5);
        assert(s[0] != "async"@[0]);
        assert(s[0] != "await"@[0]);
        assert(s[0] != "break"@[0]);
        assert(s[0] != "const"@[0]);
        assert(s[0] != "crate"@[0]);
        assert(s[0] != "false"@[0]);
        assert(s[0] != "final"@[0]);
        assert(s[0] != "macro"@[0]);
        assert(s[0] != "match"@[0]);
        assert(s[0] != "super"@[0]);
        assert(s[0] != "trait"@[0]);
        assert(s[0] != "where"@[0]);
        assert(s[0] != "while"@[0]);
        assert(s[0] != "yield"@[0]);
    }
}

/// The primitive type names are exactly Rust's seventeen primitive types:
/// each of `bool`, `char`, `f32`, `f64`, `i8` to `i128`, `isize`, `str`, `u8`
/// to `u128` and `usize` is one, they are the names that device code
/// supports together with those it does not, and none is a reserved word.
pub proof fn law_primitive_names(s: Seq<char>)
    ensures
        is_primitive_name("bool"@),
        is_primitive_name("char"@),
        is_primitive_name("f32"@),
        is_primitive_name("f64"@),
        is_primitive_name("i8"@),
        is_primitive_name("i16"@),
        is_primitive_name("i32"@),
        is_primitive_name("i64"@),
        is_primitive_name("i128"@),
        is_primitive_name("isize"@),
        is_primitive_name("str"@),
        is_primitive_name("u8"@),
        is_primitive_name("u16"@),
        is_primitive_name("u32"@),
        is_primitive_name("u64"@),
        is_primitive_name("u128"@),
        is_primitive_name("usize"@),
        is_primitive_name(s) <==> is_supported_primitive(s) || is_unsupported_primitive(s),
        is_primitive_name(s) ==> !is_reserved_word(s),
{
    if is_primitive_name(s) {
        lemma_primitives_not_reserved(s);
    }
    reveal_strlit("bool");
    reveal_strlit("char");
    reveal_strlit("f32");
    reveal_strlit("f64");
    reveal_strlit("i8");
    reveal_strlit("i16");
    reveal_strlit("i32");
    reveal_strlit("i64");
    reveal_strlit("i128");
    reveal_strlit("isize");
    reveal_strlit("str");
    reveal_strlit("u8");
    reveal_strlit("u16");
    reveal_strlit("u32");
    reveal_strlit("u64");
    reveal_strlit("u128");
    reveal_strlit("usize");
}

/// A primitive type's name is read as a primitive type: an identifier token
/// holding any of the seventeen names is consumed whole.
pub proof fn law_primitive_read(toks: Seq<Tok>, pos: nat)
    requires
        pos < toks.len(),
        toks[pos as int] is Ident,
        is_supported_primitive(toks[pos as int]->Ident_0@) || is_unsupported_primitive(
            toks[pos as int]->Ident_0@,
        ),
    ensures
        spec_primitive(toks, pos) == Ok::<(Seq<char>, nat), ParseError>(
            (toks[pos as int]->Ident_0@, pos + 1),
        ),
{
    law_primitive_names(toks[pos as int]->Ident_0@);
}

} // verus!
