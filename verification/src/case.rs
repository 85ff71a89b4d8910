//! Classification of identifiers by case, and underscore trimming.
use vstd::prelude::*;
use crate::ascii::ascii_upper;
use crate::text::str_eq;

verus! {

/// An identifier in lower snake case (`foo_bar`), held by its name.
#[derive(Debug, Clone)]
pub struct LowerSnakeIdent(pub String);

/// An identifier in upper camel case (`FooBar`), held by its name.
#[derive(Debug, Clone)]
pub struct UpperCamelIdent(pub String);

/// The name of a primitive type (`i32`, `f64`, ...).
#[derive(Debug, Clone)]
pub struct PrimitiveIdent(pub String);

/// The case an identifier is written in.
#[derive(Debug, Clone, Copy, PartialEq, Eq, Structural)]
pub enum Case {
    LowerSnake,
    UpperCamel,
    SupportedPrimitive,
    UnsupportedPrimitive,
    Unknown,
}

/// What `heck` makes of `s` when converting it to upper camel case.
pub uninterp spec fn heck_upper_camel(s: Seq<char>) -> Seq<char>;

/// What `heck` makes of `s` when converting it to snake case.
pub uninterp spec fn heck_snake(s: Seq<char>) -> Seq<char>;

/// `s` is made of ASCII lower-case letters and digits only.
pub open spec fn is_lower_alnum(s: Seq<char>) -> bool {
    forall|i: int| 0 <= i < s.len() ==> ('a' <= #[trigger] s[i] <= 'z' || '0' <= s[i] <= '9')
}

/// Calls `heck::ToUpperCamelCase::to_upper_camel_case`.
///
/// Trusted: the result is heck's upper camel case form of `s`, a function of
/// `s` alone (heck's word segmentation takes pages to state and is not
/// stated). Two cases are stated, read off heck's `transform` and
/// `capitalize`: the empty string gives the empty string, and a string of
/// ASCII lower-case letters and digits is a single word, whose first
/// character is upper-cased and the rest kept.
#[verifier::external_body]
pub fn to_upper_camel_case(s: &str) -> (r: String)
    ensures
        r@ == heck_upper_camel(s@),
        s@.len() == 0 ==> r@.len() == 0,
        is_lower_alnum(s@) && s@.len() > 0 ==> r@ == seq![ascii_upper(s@[0])] + s@.drop_first(),
{
    heck::ToUpperCamelCase::to_upper_camel_case(s)
}

/// Calls `heck::ToSnakeCase::to_snake_case` (which `to_snek_case` forwards to).
///
/// Trusted: the result is heck's snake case form of `s`, a function of `s`
/// alone (heck's word segmentation is not stated). One case is stated, read
/// off heck's `transform` and `lowercase`: a string of ASCII lower-case
/// letters and digits (the empty string included) is kept as it is.
#[verifier::external_body]
pub fn to_snake_case(s: &str) -> (r: String)
    ensures
        r@ == heck_snake(s@),
        is_lower_alnum(s@) ==> r@ == s@,
{
    heck::ToSnakeCase::to_snake_case(s)
}

impl PrimitiveIdent {
    /// The name the primitive type is stored under.
    pub fn db_ident(&self) -> (r: String)
        ensures
            r@ == self.0@,
    {
        self.0.clone()
    }
}

/// The primitive type names that device code supports.
pub open spec fn is_supported_primitive(s: Seq<char>) -> bool {
    ||| s == "bool"@
    ||| s == "f32"@
    ||| s == "f64"@
    ||| s == "i8"@
    ||| s == "i16"@
    ||| s == "i32"@
    ||| s == "i64"@
    ||| s == "i128"@
    ||| s == "str"@
    ||| s == "u8"@
    ||| s == "u16"@
    ||| s == "u32"@
    ||| s == "u64"@
    ||| s == "u128"@
}

/// The primitive type names that device code does not support.
pub open spec fn is_unsupported_primitive(s: Seq<char>) -> bool {
    s == "usize"@ || s == "isize"@ || s == "char"@
}

/// The case of `s`: upper camel when heck's upper camel form of `s` is `s`
/// and its snake form is not; when only the snake form is `s`, a supported
/// primitive, an unsupported primitive or else lower snake; otherwise unknown.
pub open spec fn spec_case(s: Seq<char>) -> Case {
    let is_camel = heck_upper_camel(s) == s;
    let is_snake = heck_snake(s) == s;
    if is_camel && !is_snake {
        Case::UpperCamel
    } else if !is_camel && is_snake {
        if is_supported_primitive(s) {
            Case::SupportedPrimitive
        } else if is_unsupported_primitive(s) {
            Case::UnsupportedPrimitive
        } else {
            Case::LowerSnake
        }
    } else {
        Case::Unknown
    }
}

/// `s` is made of underscores only.
pub open spec fn all_underscores(s: Seq<char>) -> bool {
    forall|i: int| 0 <= i < s.len() ==> s[i] == '_'
}

/// The number of underscores that `s` begins with.
pub open spec fn leading_underscores(s: Seq<char>) -> nat
    decreases s.len(),
{
    if s.len() == 0 || s[0] != '_' {
        0
    } else {
        1 + leading_underscores(s.drop_first())
    }
}

/// The number of underscores that `s` ends with.
pub open spec fn trailing_underscores(s: Seq<char>) -> nat
    decreases s.len(),
{
    if s.len() == 0 || s.last() != '_' {
        0
    } else {
        1 + trailing_underscores(s.drop_last())
    }
}

/// The last character of `s` that is not an underscore, if any, is ASCII.
pub open spec fn last_word_char_is_ascii(s: Seq<char>) -> bool {
    let t = trailing_underscores(s);
    t < s.len() ==> (s[s.len() - t - 1] as u32) < 128
}

/// Case classification and underscore trimming of names.
pub trait Cased {
    /// The characters of the name.
    spec fn name_chars(&self) -> Seq<char>;

    /// The case the name is written in. The names of the supported and the
    /// unsupported primitive types are classified as such, and the empty name
    /// is of unknown case.
    fn case(&self) -> (c: Case)
        ensures
            c == spec_case(self.name_chars()),
            is_supported_primitive(self.name_chars()) ==> c == Case::SupportedPrimitive,
            is_unsupported_primitive(self.name_chars()) ==> c == Case::UnsupportedPrimitive,
            self.name_chars().len() == 0 ==> c == Case::Unknown,
            is_lower_alnum(self.name_chars()) && self.name_chars().len() > 0 && 'a'
                <= self.name_chars()[0] <= 'z' && !is_supported_primitive(self.name_chars())
                && !is_unsupported_primitive(self.name_chars()) ==> c == Case::LowerSnake,
    ;

    /// The number of leading underscores, and the rest of the name when it is
    /// not all underscores.
    fn split_underscores(&self) -> (r: (usize, Option<&str>))
        ensures
            r.0 == leading_underscores(self.name_chars()),
            r.1 is None <==> all_underscores(self.name_chars()),
            r.1 matches Some(rest) ==> rest@ == self.name_chars().skip(r.0 as int),
    ;

    /// The name without its trailing underscores when it is not all
    /// underscores, and the number of trailing underscores. The last
    /// character that is not an underscore must be ASCII: the name is cut
    /// by byte position right after it.
    fn rsplit_underscores(&self) -> (r: (Option<&str>, usize))
        requires
            last_word_char_is_ascii(self.name_chars()),
        ensures
            r.1 == trailing_underscores(self.name_chars()),
            r.0 is None <==> all_underscores(self.name_chars()),
            r.0 matches Some(head) ==> head@ == self.name_chars().take(
                self.name_chars().len() - r.1,
            ),
    ;
}

/// Whether `s` names a primitive type that device code supports.
pub fn supported_primitive(s: &str) -> (r: bool)
    ensures
        r == is_supported_primitive(s@),
{
    str_eq(s, "bool") || str_eq(s, "f32") || str_eq(s, "f64") || str_eq(s, "i8") || str_eq(s, "i16")
        || str_eq(s, "i32") || str_eq(s, "i64") || str_eq(s, "i128") || str_eq(s, "str")
        || str_eq(s, "u8") || str_eq(s, "u16") || str_eq(s, "u32") || str_eq(s, "u64")
        || str_eq(s, "u128")
}

/// Whether `s` names a primitive type that device code does not support.
pub fn unsupported_primitive(s: &str) -> (r: bool)
    ensures
        r == is_unsupported_primitive(s@),
{
    str_eq(s, "usize") || str_eq(s, "isize") || str_eq(s, "char")
}

/// The primitive types' names are made of ASCII lower-case letters and
/// digits and begin with a letter.
proof fn lemma_primitive_names_lower_alnum(s: Seq<char>)
    ensures
        is_supported_primitive(s) || is_unsupported_primitive(s) ==> is_lower_alnum(s) && s.len()
            > 0 && 'a' <= s[0] <= 'z',
        is_unsupported_primitive(s) ==> !is_supported_primitive(s),
{
    reveal_strlit("bool");
    reveal_strlit("f32");
    reveal_strlit("f64");
    reveal_strlit("i8");
    reveal_strlit("i16");
    reveal_strlit("i32");
    reveal_strlit("i64");
    reveal_strlit("i128");
    reveal_strlit("str");
    reveal_strlit("u8");
    reveal_strlit("u16");
    reveal_strlit("u32");
    reveal_strlit("u64");
    reveal_strlit("u128");
    reveal_strlit("usize");
    reveal_strlit("isize");
    reveal_strlit("char");
    if is_unsupported_primitive(s) {
        assert(s.len() == 5 || (s.len() == 4 && s[0] == 'c'));
        if is_supported_primitive(s) {
            assert(s.len() <= 4);
            assert(s[0] == 'b' || s[0] == 'i' || s[0] == 'u' || s.len() < 4);
        }
    }
}

/// What the case of a name says of it: a primitive type's name is one of the
/// listed names, and a lower snake case name is one that heck's snake case
/// conversion keeps and its upper camel case conversion changes, and that
/// names no primitive type.
pub proof fn law_case_meaning(s: Seq<char>)
    ensures
        spec_case(s) == Case::SupportedPrimitive ==> is_supported_primitive(s),
        spec_case(s) == Case::UnsupportedPrimitive ==> is_unsupported_primitive(s),
        spec_case(s) == Case::LowerSnake ==> heck_snake(s) == s && heck_upper_camel(s) != s
            && !is_supported_primitive(s) && !is_unsupported_primitive(s),
        spec_case(s) == Case::UpperCamel ==> heck_upper_camel(s) == s && heck_snake(s) != s,
{
}

/// A name's case is decided by heck's two conversions and the primitive
/// lists alone: a name that only the snake case conversion keeps is a
/// primitive type's name when listed and otherwise lower snake case; a name
/// that only the upper camel case conversion keeps is upper camel case; a
/// name that both keep, or that neither keeps, is of unknown case.
pub proof fn law_case_decided_by_conversions(s: Seq<char>)
    ensures
        heck_snake(s) == s && heck_upper_camel(s) != s && is_supported_primitive(s) ==> spec_case(s)
            == Case::SupportedPrimitive,
        heck_snake(s) == s && heck_upper_camel(s) != s && !is_supported_primitive(s)
            && is_unsupported_primitive(s) ==> spec_case(s) == Case::UnsupportedPrimitive,
        heck_snake(s) == s && heck_upper_camel(s) != s && !is_supported_primitive(s)
            && !is_unsupported_primitive(s) ==> spec_case(s) == Case::LowerSnake,
        heck_upper_camel(s) == s && heck_snake(s) != s ==> spec_case(s) == Case::UpperCamel,
        (heck_upper_camel(s) == s) == (heck_snake(s) == s) ==> spec_case(s) == Case::Unknown,
{
}

/// A prefix of `k` underscores followed by a non-underscore (or the end)
/// means `s` begins with exactly `k` underscores.
pub proof fn lemma_leading_underscores(s: Seq<char>, k: int)
    requires
        0 <= k <= s.len(),
        forall|j: int| 0 <= j < k ==> s[j] == '_',
        k == s.len() || s[k] != '_',
    ensures
        leading_underscores(s) == k,
    decreases k,
{
    if k > 0 {
        let t = s.drop_first();
        assert forall|j: int| 0 <= j < k - 1 implies t[j] == '_' by {
            assert(t[j] == s[j + 1]);
        }
        if k - 1 < t.len() {
            assert(t[k - 1] == s[k]);
        }
        lemma_leading_underscores(t, k - 1);
    }
}

/// A suffix of `k` underscores preceded by a non-underscore (or the start)
/// means `s` ends with exactly `k` underscores.
pub proof fn lemma_trailing_underscores(s: Seq<char>, k: int)
    requires
        0 <= k <= s.len(),
        forall|j: int| s.len() - k <= j < s.len() ==> s[j] == '_',
        k == s.len() || s[s.len() - k - 1] != '_',
    ensures
        trailing_underscores(s) == k,
    decreases k,
{
    if k > 0 {
        let t = s.drop_last();
        assert forall|j: int| t.len() - (k - 1) <= j < t.len() implies t[j] == '_' by {
            assert(t[j] == s[j]);
        }
        if k - 1 < t.len() {
            assert(t[t.len() - (k - 1) - 1] == s[s.len() - k - 1]);
        }
        lemma_trailing_underscores(t, k - 1);
    }
}

impl<'a> Cased for &'a str {
    open spec fn name_chars(&self) -> Seq<char> {
        (**self)@
    }

    fn case(&self) -> (c: Case) {
        let s: &str = *self;
        proof {
            lemma_primitive_names_lower_alnum(s@);
        }
        let camel = to_upper_camel_case(s);
        let is_camel = str_eq(camel.as_str(), s);
        let snake = to_snake_case(s);
        let is_snake = str_eq(snake.as_str(), s);
        proof {
            if s@.len() == 0 {
                assert(camel@ =~= s@);
                assert(snake@ =~= s@);
            }
            if is_supported_primitive(s@) || is_unsupported_primitive(s@) || (is_lower_alnum(s@)
                && s@.len() > 0 && 'a' <= s@[0] <= 'z') {
                let c0 = s@[0];
                assert(ascii_upper(c0) as u32 == (c0 as u32) - 32);
                assert(camel@[0] != s@[0]);
            }
        }
        if is_camel && !is_snake {
            Case::UpperCamel
        } else if !is_camel && is_snake {
            if supported_primitive(s) {
                Case::SupportedPrimitive
            } else if unsupported_primitive(s) {
                Case::UnsupportedPrimitive
            } else {
                Case::LowerSnake
            }
        } else {
            Case::Unknown
        }
    }

    fn split_underscores(&self) -> (r: (usize, Option<&str>)) {
        let s: &'a str = *self;
        let n = s.unicode_len();
        let mut i: usize = 0;
        while i < n && s.get_char(i) == '_'
            invariant
                i <= n,
                n == s@.len(),
                forall|j: int| 0 <= j < i ==> s@[j] == '_',
            decreases n - i,
        {
            i = i + 1;
        }
        proof {
            lemma_leading_underscores(s@, i as int);
        }
        if i == n {
            (n, None)
        } else {
            assert(!all_underscores(s@));
            let rest: &'a str = s.substring_char(i, n);
            assert(s@.subrange(i as int, n as int) =~= s@.skip(i as int));
            (i, Some(rest))
        }
    }

    fn rsplit_underscores(&self) -> (r: (Option<&str>, usize)) {
        let s: &'a str = *self;
        let n = s.unicode_len();
        let mut k: usize = 0;
        while k < n && s.get_char(n - 1 - k) == '_'
            invariant
                k <= n,
                n == s@.len(),
                forall|j: int| n - k <= j < n ==> s@[j] == '_',
            decreases n - k,
        {
            k = k + 1;
        }
        proof {
            lemma_trailing_underscores(s@, k as int);
        }
        if k == n {
            assert(all_underscores(s@));
            (None, n)
        } else {
            assert(!all_underscores(s@));
            let head: &'a str = s.substring_char(0, n - k);
            assert(s@.subrange(0, n - k) =~= s@.take(n - k));
            (Some(head), k)
        }
    }
}

/// `n` underscores.
pub open spec fn underscores(n: nat) -> Seq<char> {
    Seq::new(n, |i: int| '_')
}

/// Splitting off the leading underscores loses nothing: the underscores
/// counted, followed by the rest, give back the name; the rest does not begin
/// with an underscore; and there is no rest exactly when the name is all
/// underscores.
pub proof fn law_split_underscores_restores(s: Seq<char>)
    ensures
        underscores(leading_underscores(s)) + s.skip(leading_underscores(s) as int) == s,
        leading_underscores(s) < s.len() ==> s[leading_underscores(s) as int] != '_',
        all_underscores(s) <==> leading_underscores(s) == s.len(),
    decreases s.len(),
{
    if s.len() > 0 && s[0] == '_' {
        let t = s.drop_first();
        law_split_underscores_restores(t);
        let k = leading_underscores(t);
        assert(underscores(k + 1) =~= seq!['_'] + underscores(k));
        assert(s.skip(k + 1 as int) =~= t.skip(k as int));
        assert(s =~= seq!['_'] + t);
        if k < t.len() {
            assert(s[k + 1 as int] == t[k as int]);
        }
        assert(all_underscores(s) <==> all_underscores(t)) by {
            if all_underscores(t) {
                assert forall|i: int| 0 <= i < s.len() implies s[i] == '_' by {
                    if i > 0 {
                        assert(s[i] == t[i - 1]);
                    }
                }
            }
            if all_underscores(s) {
                assert forall|i: int| 0 <= i < t.len() implies t[i] == '_' by {
                    assert(t[i] == s[i + 1]);
                }
            }
        }
    } else {
        assert(underscores(0) =~= Seq::<char>::empty());
        assert(s.skip(0) =~= s);
        if s.len() > 0 {
            assert(!all_underscores(s));
        }
    }
}

/// Splitting off the trailing underscores loses nothing: the head, followed
/// by the underscores counted, gives back the name; the head does not end
/// with an underscore; and there is no head exactly when the name is all
/// underscores.
pub proof fn law_rsplit_underscores_restores(s: Seq<char>)
    ensures
        s.take(s.len() - trailing_underscores(s)) + underscores(trailing_underscores(s)) == s,
        trailing_underscores(s) < s.len() ==> s[s.len() - trailing_underscores(s) - 1] != '_',
        all_underscores(s) <==> trailing_underscores(s) == s.len(),
    decreases s.len(),
{
    if s.len() > 0 && s.last() == '_' {
        let t = s.drop_last();
        law_rsplit_underscores_restores(t);
        let k = trailing_underscores(t);
        assert(underscores(k + 1) =~= underscores(k) + seq!['_']);
        assert(s.take(s.len() - (k + 1)) =~= t.take(t.len() - k));
        assert(s =~= t + seq!['_']);
        if k < t.len() {
            assert(s[s.len() - (k + 1) - 1] == t[t.len() - k - 1]);
        }
        assert(all_underscores(s) <==> all_underscores(t)) by {
            if all_underscores(t) {
                assert forall|i: int| 0 <= i < s.len() implies s[i] == '_' by {
                    if i < t.len() {
                        assert(s[i] == t[i]);
                    }
                }
            }
            if all_underscores(s) {
                assert forall|i: int| 0 <= i < t.len() implies t[i] == '_' by {
                    assert(t[i] == s[i]);
                }
            }
        }
    } else {
        assert(underscores(0) =~= Seq::<char>::empty());
        assert(s.take(s.len() as int) =~= s);
        if s.len() > 0 {
            assert(!all_underscores(s));
        }
    }
}

/// Device code supports the primitive types `bool`, `f32`, `f64`, `i8` to
/// `i128`, `str` and `u8` to `u128`, and not `usize`, `isize` or `char`.
pub proof fn law_primitive_support()
    ensures
        is_supported_primitive("bool"@),
        is_supported_primitive("f32"@),
        is_supported_primitive("f64"@),
        is_supported_primitive("i8"@),
        is_supported_primitive("i16"@),
        is_supported_primitive("i32"@),
        is_supported_primitive("i64"@),
        is_supported_primitive("i128"@),
        is_supported_primitive("str"@),
        is_supported_primitive("u8"@),
        is_supported_primitive("u16"@),
        is_supported_primitive("u32"@),
        is_supported_primitive("u64"@),
        is_supported_primitive("u128"@),
        is_unsupported_primitive("usize"@),
        is_unsupported_primitive("isize"@),
        is_unsupported_primitive("char"@),
{
}

} // verus!
