//! Validation, naming and grammar logic behind the spindle procedural macros.
//!
//! The token-level front end (turning a `proc_macro2` token stream or a `syn`
//! tree into the plain values held here) and the emission of generated code
//! live outside this library; everything that decides what is accepted, what
//! is rejected and what generated items are called lives here.
pub mod ascii;
pub mod case;
pub mod compile;
pub mod db;
pub mod dev_item_fn;
pub mod error;
pub mod init;
pub mod map;
pub mod map_fn;
pub mod primitives;
pub mod range;
pub mod regulate;
pub mod spin;
pub mod spindle_crate;
pub mod syntax;
pub mod tag;
pub mod text;
pub mod tokens;

use vstd::prelude::*;
use crate::ascii::{all_ascii, ascii_camel_word, law_ascii_camel_word_idempotent, ascii_lower, ascii_lower_chars, ascii_snake_to_camel, ascii_upper};
use crate::text::{char_lower, char_to_lowercase, char_to_uppercase, char_upper, is_ascii_char};

verus! {

/// The characters of `s` with its first character mapped to upper case and
/// every later character mapped to lower case.
pub open spec fn spec_camel_word(s: Seq<char>) -> Seq<char> {
    if s.len() == 0 {
        Seq::empty()
    } else {
        char_upper(s[0]) + lower_chars(s.drop_first())
    }
}

/// Every character of `s` mapped to lower case, in order.
pub open spec fn lower_chars(s: Seq<char>) -> Seq<char>
    decreases s.len(),
{
    if s.len() == 0 {
        Seq::empty()
    } else {
        lower_chars(s.drop_last()) + char_lower(s.last())
    }
}

/// `s` converted from lower snake case to upper camel case: underscores are
/// dropped, a character that starts a word (the first one, or one right after
/// an underscore) is mapped to upper case and any other character to lower
/// case.
pub open spec fn spec_snake_to_camel(s: Seq<char>) -> Seq<char>
    decreases s.len(),
{
    if s.len() == 0 {
        Seq::empty()
    } else {
        let prev = spec_snake_to_camel(s.drop_last());
        let c = s.last();
        if c == '_' {
            prev
        } else if s.len() == 1 || s[s.len() - 2] == '_' {
            prev + char_upper(c)
        } else {
            prev + char_lower(c)
        }
    }
}

/// Capitalizes a single word: the first character is upper-cased and the rest
/// are lower-cased. The empty string maps to itself. An ASCII word is
/// mapped character by character with ASCII's case mappings.
pub fn camel_word(s: &str) -> (camel: String)
    ensures
        camel@ == spec_camel_word(s@),
        all_ascii(s@) ==> camel@ == ascii_camel_word(s@),
        all_ascii(s@) ==> all_ascii(camel@) && ascii_camel_word(camel@) == camel@,
{
    proof {
        if all_ascii(s@) {
            law_ascii_camel_word_idempotent(s@);
        }
    }
    let n = s.unicode_len();
    if n == 0 {
        return String::new();
    }
    let mut camel = char_to_uppercase(s.get_char(0));
    proof {
        if all_ascii(s@) {
            assert(is_ascii_char(s@[0]));
            assert(ascii_lower_chars(s@.subrange(1, 1)) =~= Seq::<char>::empty());
            assert(camel@ =~= seq![ascii_upper(s@[0])] + ascii_lower_chars(s@.subrange(1, 1)));
        }
    }
    let mut i: usize = 1;
    while i < n
        invariant
            1 <= i <= n,
            n == s@.len(),
            camel@ == char_upper(s@[0]) + lower_chars(s@.subrange(1, i as int)),
            all_ascii(s@) ==> camel@ == seq![ascii_upper(s@[0])] + ascii_lower_chars(
                s@.subrange(1, i as int),
            ),
        decreases n - i,
    {
        let c = s.get_char(i);
        let low = char_to_lowercase(c);
        let ghost before = camel@;
        camel.append(low.as_str());
        proof {
            assert(s@.subrange(1, i + 1).drop_last() =~= s@.subrange(1, i as int));
            if all_ascii(s@) {
                assert(is_ascii_char(s@[i as int]));
                assert(low@ == seq![ascii_lower(c)]);
                assert(ascii_lower_chars(s@.subrange(1, i + 1)) =~= ascii_lower_chars(
                    s@.subrange(1, i as int),
                ).push(ascii_lower(c)));
                assert(camel@ =~= seq![ascii_upper(s@[0])] + ascii_lower_chars(s@.subrange(1, i + 1)));
            }
        }
        i = i + 1;
    }
    assert(s@.subrange(1, n as int) =~= s@.drop_first());
    camel
}

/// Converts a lower snake case name to upper camel case, word by word. An
/// ASCII name comes out without any underscore.
pub fn snake_to_camel(s: &str) -> (camel: String)
    ensures
        camel@ == spec_snake_to_camel(s@),
        all_ascii(s@) ==> camel@ == ascii_snake_to_camel(s@),
        all_ascii(s@) ==> forall|i: int| 0 <= i < camel@.len() ==> #[trigger] camel@[i] != '_',
{
    let n = s.unicode_len();
    let mut camel = String::new();
    let mut i: usize = 0;
    while i < n
        invariant
            i <= n,
            n == s@.len(),
            camel@ == spec_snake_to_camel(s@.subrange(0, i as int)),
            all_ascii(s@) ==> forall|j: int| 0 <= j < camel@.len() ==> #[trigger] camel@[j] != '_',
            all_ascii(s@) ==> camel@ == ascii_snake_to_camel(s@.subrange(0, i as int)),
        decreases n - i,
    {
        let c = s.get_char(i);
        let ghost old_camel = camel@;
        let ghost before = s@.subrange(0, i as int);
        let ghost after = s@.subrange(0, i + 1);
        assert(after.drop_last() =~= before);
        if c == '_' {
        } else if i == 0 || s.get_char(i - 1) == '_' {
            let up = char_to_uppercase(c);
            camel.append(up.as_str());
            proof {
                if all_ascii(s@) {
                    assert(is_ascii_char(s@[i as int]));
                    assert(up@ == seq![ascii_upper(c)]);
                    assert(camel@ =~= old_camel.push(ascii_upper(c)));
                    assert forall|j: int| 0 <= j < camel@.len() implies #[trigger] camel@[j] != '_' by {
                        if j >= old_camel.len() {
                            assert(camel@[j] == up@[j - old_camel.len()]);
                        }
                    }
                }
            }
        } else {
            let low = char_to_lowercase(c);
            camel.append(low.as_str());
            proof {
                if all_ascii(s@) {
                    assert(is_ascii_char(s@[i as int]));
                    assert(low@ == seq![ascii_lower(c)]);
                    assert(camel@ =~= old_camel.push(ascii_lower(c)));
                    assert forall|j: int| 0 <= j < camel@.len() implies #[trigger] camel@[j] != '_' by {
                        if j >= old_camel.len() {
                            assert(camel@[j] == low@[j - old_camel.len()]);
                        }
                    }
                }
            }
        }
        i = i + 1;
    }
    assert(s@.subrange(0, n as int) =~= s@);
    camel
}

} // verus!
