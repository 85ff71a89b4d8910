//! Character case mappings, lossy decoding and trimming of the standard
//! library, with the facts about them that the library relies on, and
//! decimal formatting.
use vstd::prelude::*;
use vstd::utf8::{decode_utf8, valid_utf8};

verus! {

/// The characters that `char::to_uppercase` yields for `c`.
pub uninterp spec fn char_upper(c: char) -> Seq<char>;

/// The characters that `char::to_lowercase` yields for `c`.
pub uninterp spec fn char_lower(c: char) -> Seq<char>;

/// `c` is an ASCII lower-case letter.
pub open spec fn is_ascii_lower(c: char) -> bool {
    'a' <= c && c <= 'z'
}

/// `c` is an ASCII upper-case letter.
pub open spec fn is_ascii_upper(c: char) -> bool {
    'A' <= c && c <= 'Z'
}

/// `c` is an ASCII character.
pub open spec fn is_ascii_char(c: char) -> bool {
    (c as u32) < 128
}

/// The ASCII letter that differs from `c` by `'a' - 'A'`, going up or down.
pub open spec fn ascii_shift(c: char, up: bool) -> char {
    if up {
        ((c as u32) - 32) as char
    } else {
        ((c as u32) + 32) as char
    }
}

/// Calls `char::to_uppercase` and collects what it yields.
///
/// Trusted: the result is the uppercase mapping of `c`, at least one character
/// long; for an ASCII lower-case letter it is the matching upper-case letter,
/// and for any other ASCII character it is the character itself (the standard
/// library documents that a character without an uppercase mapping yields
/// itself).
#[verifier::external_body]
pub fn char_to_uppercase(c: char) -> (r: String)
    ensures
        r@ == char_upper(c),
        r@.len() >= 1,
        is_ascii_lower(c) ==> r@ == seq![ascii_shift(c, true)],
        is_ascii_char(c) && !is_ascii_lower(c) ==> r@ == seq![c],
{
    c.to_uppercase().collect()
}

/// Calls `char::to_lowercase` and collects what it yields.
///
/// Trusted: the result is the lowercase mapping of `c`, at least one character
/// long; for an ASCII upper-case letter it is the matching lower-case letter,
/// and for any other ASCII character it is the character itself.
#[verifier::external_body]
pub fn char_to_lowercase(c: char) -> (r: String)
    ensures
        r@ == char_lower(c),
        r@.len() >= 1,
        is_ascii_upper(c) ==> r@ == seq![ascii_shift(c, false)],
        is_ascii_char(c) && !is_ascii_upper(c) ==> r@ == seq![c],
{
    c.to_lowercase().collect()
}

/// Compares two strings character by character.
pub fn str_eq(a: &str, b: &str) -> (same: bool)
    ensures
        same == (a@ == b@),
{
    let n = a.unicode_len();
    let m = b.unicode_len();
    if n != m {
        return false;
    }
    let mut i: usize = 0;
    while i < n
        invariant
            i <= n,
            n == a@.len(),
            m == b@.len(),
            n == m,
            forall|j: int| 0 <= j < i ==> a@[j] == b@[j],
        decreases n - i,
    {
        if a.get_char(i) != b.get_char(i) {
            return false;
        }
        i = i + 1;
    }
    assert(a@ =~= b@);
    true
}

/// The characters that `String::from_utf8_lossy` makes of `bytes`.
pub uninterp spec fn lossy_utf8(bytes: Seq<u8>) -> Seq<char>;

/// `c` has Unicode's White_Space property, which `char::is_whitespace`
/// tests and by which `str::trim_end` and `str::trim_start` trim.
pub open spec fn is_white_space(c: char) -> bool {
    let u = c as u32;
    ||| 0x09 <= u <= 0x0D
    ||| u == 0x20
    ||| u == 0x85
    ||| u == 0xA0
    ||| u == 0x1680
    ||| 0x2000 <= u <= 0x200A
    ||| u == 0x2028
    ||| u == 0x2029
    ||| u == 0x202F
    ||| u == 0x205F
    ||| u == 0x3000
}

/// `s` without its trailing white space.
pub open spec fn trimmed_end(s: Seq<char>) -> Seq<char>
    decreases s.len(),
{
    if s.len() > 0 && is_white_space(s.last()) {
        trimmed_end(s.drop_last())
    } else {
        s
    }
}

/// `s` without its leading white space.
pub open spec fn trimmed_start(s: Seq<char>) -> Seq<char>
    decreases s.len(),
{
    if s.len() > 0 && is_white_space(s[0]) {
        trimmed_start(s.drop_first())
    } else {
        s
    }
}

/// Calls `String::from_utf8_lossy` and takes the result as an owned string.
///
/// Trusted: the result is the lossy decoding of `bytes` (invalid sequences
/// become replacement characters, which is not stated); when `bytes` is valid
/// UTF-8 it is exactly the text the bytes encode, as the standard library
/// documents, and it is empty exactly when `bytes` is (every byte is either
/// decoded or replaced).
#[verifier::external_body]
pub fn from_utf8_lossy(bytes: &[u8]) -> (r: String)
    ensures
        r@ == lossy_utf8(bytes@),
        valid_utf8(bytes@) ==> r@ == decode_utf8(bytes@),
        r@.len() == 0 <==> bytes@.len() == 0,
{
    String::from_utf8_lossy(bytes).into_owned()
}

/// Calls `str::trim_end`.
///
/// Trusted: the result is `s` without its trailing characters that have
/// Unicode's White_Space property, as the standard library documents.
#[verifier::external_body]
pub fn trim_end(s: &str) -> (r: &str)
    ensures
        r@ == trimmed_end(s@),
{
    s.trim_end()
}

/// Calls `str::trim_start`.
///
/// Trusted: the result is `s` without its leading characters that have
/// Unicode's White_Space property, as the standard library documents.
#[verifier::external_body]
pub fn trim_start(s: &str) -> (r: &str)
    ensures
        r@ == trimmed_start(s@),
{
    s.trim_start()
}

/// The decimal digit character for `d`.
pub open spec fn digit_char(d: nat) -> char {
    if d == 0 { '0' } else if d == 1 { '1' } else if d == 2 { '2' } else if d == 3 { '3' }
    else if d == 4 { '4' } else if d == 5 { '5' } else if d == 6 { '6' } else if d == 7 { '7' }
    else if d == 8 { '8' } else { '9' }
}

/// The decimal representation of `n`, without leading zeros.
pub open spec fn spec_decimal(n: nat) -> Seq<char>
    decreases n,
{
    if n < 10 {
        seq![digit_char(n)]
    } else {
        spec_decimal(n / 10).push(digit_char(n % 10))
    }
}

/// The one-character string of the digit `d`.
fn digit_str(d: usize) -> (r: &'static str)
    requires
        d < 10,
    ensures
        r@ == seq![digit_char(d as nat)],
{
    proof {
        reveal_strlit("0");
        reveal_strlit("1");
        reveal_strlit("2");
        reveal_strlit("3");
        reveal_strlit("4");
        reveal_strlit("5");
        reveal_strlit("6");
        reveal_strlit("7");
        reveal_strlit("8");
        reveal_strlit("9");
    }
    if d == 0 {
        "0"
    } else if d == 1 {
        "1"
    } else if d == 2 {
        "2"
    } else if d == 3 {
        "3"
    } else if d == 4 {
        "4"
    } else if d == 5 {
        "5"
    } else if d == 6 {
        "6"
    } else if d == 7 {
        "7"
    } else if d == 8 {
        "8"
    } else {
        "9"
    }
}

/// Formats `n` in decimal.
pub fn decimal(n: usize) -> (r: String)
    ensures
        r@ == spec_decimal(n as nat),
    decreases n,
{
    if n < 10 {
        String::from_str(digit_str(n))
    } else {
        let prefix = decimal(n / 10);
        let r = prefix.concat(digit_str(n % 10));
        assert(r@ =~= spec_decimal((n / 10) as nat).push(digit_char((n % 10) as nat)));
        r
    }
}

} // verus!
