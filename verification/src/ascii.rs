//! The case conversions of names restricted to ASCII, where the standard
//! library's case mappings are stated exactly, and the laws they obey.
use vstd::prelude::*;
use crate::text::{ascii_shift, is_ascii_char, is_ascii_lower, is_ascii_upper};

verus! {

/// Every character of `s` is ASCII.
pub open spec fn all_ascii(s: Seq<char>) -> bool {
    forall|i: int| 0 <= i < s.len() ==> is_ascii_char(#[trigger] s[i])
}

/// The upper-case form of an ASCII character: a lower-case letter becomes
/// its upper-case letter, any other character stays.
pub open spec fn ascii_upper(c: char) -> char {
    if is_ascii_lower(c) {
        ascii_shift(c, true)
    } else {
        c
    }
}

/// The lower-case form of an ASCII character: an upper-case letter becomes
/// its lower-case letter, any other character stays.
pub open spec fn ascii_lower(c: char) -> char {
    if is_ascii_upper(c) {
        ascii_shift(c, false)
    } else {
        c
    }
}

/// Every character of `s` in lower case.
pub open spec fn ascii_lower_chars(s: Seq<char>) -> Seq<char> {
    s.map_values(|c: char| ascii_lower(c))
}

/// One word capitalized: the first character in upper case, the others in
/// lower case.
pub open spec fn ascii_camel_word(s: Seq<char>) -> Seq<char> {
    if s.len() == 0 {
        Seq::empty()
    } else {
        seq![ascii_upper(s[0])] + ascii_lower_chars(s.drop_first())
    }
}

/// A snake case name in upper camel case: underscores dropped, a character
/// that starts a word in upper case, any other in lower case.
pub open spec fn ascii_snake_to_camel(s: Seq<char>) -> Seq<char>
    decreases s.len(),
{
    if s.len() == 0 {
        Seq::empty()
    } else {
        let prev = ascii_snake_to_camel(s.drop_last());
        let c = s.last();
        if c == '_' {
            prev
        } else if s.len() == 1 || s[s.len() - 2] == '_' {
            prev.push(ascii_upper(c))
        } else {
            prev.push(ascii_lower(c))
        }
    }
}

/// `s` without its underscores.
pub open spec fn drop_underscores(s: Seq<char>) -> Seq<char>
    decreases s.len(),
{
    if s.len() == 0 {
        Seq::empty()
    } else if s.last() == '_' {
        drop_underscores(s.drop_last())
    } else {
        drop_underscores(s.drop_last()).push(s.last())
    }
}

/// Case mappings of ASCII characters: each is ASCII again and is kept by a
/// second application, and lower-casing forgets an earlier upper-casing.
pub proof fn lemma_ascii_case(c: char)
    requires
        is_ascii_char(c),
    ensures
        is_ascii_char(ascii_upper(c)),
        is_ascii_char(ascii_lower(c)),
        ascii_upper(ascii_upper(c)) == ascii_upper(c),
        ascii_lower(ascii_lower(c)) == ascii_lower(c),
        ascii_lower(ascii_upper(c)) == ascii_lower(c),
        ascii_upper(c) != '_' <==> c != '_',
        ascii_lower(c) != '_' <==> c != '_',
{
    let u = c as u32;
    if is_ascii_lower(c) {
        let d = ((c as u32) - 32) as char;
        assert(d as u32 == u - 32);
    }
    if is_ascii_upper(c) {
        let d = ((c as u32) + 32) as char;
        assert(d as u32 == u + 32);
    }
}

/// Capitalizing an ASCII word twice gives what capitalizing it once does.
pub proof fn law_ascii_camel_word_idempotent(s: Seq<char>)
    requires
        all_ascii(s),
    ensures
        ascii_camel_word(ascii_camel_word(s)) == ascii_camel_word(s),
        ascii_camel_word(s).len() == s.len(),
        all_ascii(ascii_camel_word(s)),
{
    if s.len() > 0 {
        let w = ascii_camel_word(s);
        lemma_ascii_case(s[0]);
        assert forall|i: int| 0 <= i < w.len() implies is_ascii_char(#[trigger] w[i]) by {
            if i > 0 {
                lemma_ascii_case(s[i]);
            }
        }
        assert forall|i: int| 0 <= i < s.len() - 1 implies ascii_lower(#[trigger] ascii_lower_chars(
            s.drop_first(),
        )[i]) == ascii_lower_chars(s.drop_first())[i] by {
            lemma_ascii_case(s[i + 1]);
        }
        assert(w.drop_first() =~= ascii_lower_chars(s.drop_first()));
        assert(ascii_lower_chars(w.drop_first()) =~= ascii_lower_chars(s.drop_first()));
        assert(ascii_camel_word(w) =~= w);
    }
}

/// An ASCII snake case name converted to upper camel case keeps every
/// character but the underscores, in order and up to case, and has no
/// underscore left.
pub proof fn law_ascii_snake_to_camel_keeps_letters(s: Seq<char>)
    requires
        all_ascii(s),
    ensures
        ascii_snake_to_camel(s).len() == drop_underscores(s).len(),
        ascii_lower_chars(ascii_snake_to_camel(s)) == ascii_lower_chars(drop_underscores(s)),
        forall|i: int| 0 <= i < ascii_snake_to_camel(s).len() ==> #[trigger] ascii_snake_to_camel(s)[i] != '_',
        all_ascii(ascii_snake_to_camel(s)),
    decreases s.len(),
{
    if s.len() > 0 {
        let t = s.drop_last();
        assert(all_ascii(t)) by {
            assert forall|i: int| 0 <= i < t.len() implies is_ascii_char(#[trigger] t[i]) by {
                assert(t[i] == s[i]);
            }
        }
        law_ascii_snake_to_camel_keeps_letters(t);
        let c = s.last();
        assert(is_ascii_char(c)) by {
            assert(c == s[s.len() - 1]);
        }
        lemma_ascii_case(c);
        let prev = ascii_snake_to_camel(t);
        if c != '_' {
            let d = if s.len() == 1 || s[s.len() - 2] == '_' { ascii_upper(c) } else { ascii_lower(c) };
            assert(ascii_snake_to_camel(s) == prev.push(d));
            assert(ascii_lower_chars(prev.push(d)) =~= ascii_lower_chars(prev).push(ascii_lower(d)));
            assert(ascii_lower_chars(drop_underscores(t).push(c)) =~= ascii_lower_chars(
                drop_underscores(t),
            ).push(ascii_lower(c)));
            assert forall|i: int| 0 <= i < prev.push(d).len() implies is_ascii_char(#[trigger] prev.push(d)[i]) by {
                if i < prev.len() {
                    assert(prev.push(d)[i] == prev[i]);
                }
            }
            assert forall|i: int| 0 <= i < prev.push(d).len() implies #[trigger] prev.push(d)[i] != '_' by {
                if i < prev.len() {
                    assert(prev.push(d)[i] == prev[i]);
                }
            }
        }
    }
}

/// The words of `s` between underscores, in order, empty ones included (a
/// name without underscores is one word).
pub open spec fn split_words(s: Seq<char>) -> Seq<Seq<char>>
    decreases s.len(),
{
    if s.len() == 0 {
        seq![Seq::empty()]
    } else {
        let ws = split_words(s.drop_last());
        if s.last() == '_' {
            ws.push(Seq::empty())
        } else {
            ws.update(ws.len() - 1, ws.last().push(s.last()))
        }
    }
}

/// The words capitalized and joined.
pub open spec fn join_camel_words(ws: Seq<Seq<char>>) -> Seq<char>
    decreases ws.len(),
{
    if ws.len() == 0 {
        Seq::empty()
    } else {
        join_camel_words(ws.drop_last()) + ascii_camel_word(ws.last())
    }
}

/// There is always a word, and the last one is empty exactly when `s` is
/// empty or ends with an underscore.
proof fn lemma_split_words_last(s: Seq<char>)
    ensures
        split_words(s).len() >= 1,
        split_words(s).last().len() == 0 <==> (s.len() == 0 || s.last() == '_'),
    decreases s.len(),
{
    if s.len() > 0 {
        lemma_split_words_last(s.drop_last());
    }
}

/// Converting a snake case name to upper camel case capitalizes each word
/// between underscores and joins them: an empty word (from a leading,
/// trailing or doubled underscore) adds nothing.
pub proof fn law_ascii_snake_to_camel_word_by_word(s: Seq<char>)
    ensures
        ascii_snake_to_camel(s) == join_camel_words(split_words(s)),
    decreases s.len(),
{
    if s.len() == 0 {
        let ws0: Seq<Seq<char>> = seq![Seq::<char>::empty()];
        assert(ws0.drop_last() =~= Seq::<Seq<char>>::empty());
        assert(join_camel_words(ws0.drop_last()) == Seq::<char>::empty());
        assert(ascii_camel_word(ws0.last()) == Seq::<char>::empty());
        assert(join_camel_words(ws0) =~= Seq::<char>::empty());
    } else {
        let t = s.drop_last();
        let c = s.last();
        law_ascii_snake_to_camel_word_by_word(t);
        lemma_split_words_last(t);
        let ws = split_words(t);
        if c == '_' {
            assert(ws.push(Seq::empty()).drop_last() =~= ws);
            assert(ascii_camel_word(Seq::<char>::empty()) =~= Seq::<char>::empty());
            assert(join_camel_words(ws.push(Seq::empty())) =~= join_camel_words(ws));
        } else {
            let w = ws.last();
            let ws2 = ws.update(ws.len() - 1, w.push(c));
            assert(ws2.drop_last() =~= ws.drop_last());
            assert(ws2.last() == w.push(c));
            if w.len() == 0 {
                assert(s.len() == 1 || s[s.len() - 2] == '_') by {
                    if t.len() > 0 {
                        assert(t.last() == s[s.len() - 2]);
                    }
                }
                assert(w.push(c) =~= seq![c]);
                assert(ascii_camel_word(seq![c]) =~= seq![ascii_upper(c)]) by {
                    assert(seq![c].drop_first() =~= Seq::<char>::empty());
                }
                assert(ascii_camel_word(w) =~= Seq::<char>::empty());
            } else {
                assert(!(s.len() == 1 || s[s.len() - 2] == '_')) by {
                    assert(t.last() == s[s.len() - 2]);
                }
                assert(w.push(c).drop_first() =~= w.drop_first().push(c));
                assert(ascii_lower_chars(w.drop_first().push(c)) =~= ascii_lower_chars(
                    w.drop_first(),
                ).push(ascii_lower(c)));
                assert(ascii_camel_word(w.push(c)) =~= ascii_camel_word(w).push(ascii_lower(c)));
            }
            assert(join_camel_words(ws) == join_camel_words(ws.drop_last()) + ascii_camel_word(w));
        }
    }
}

} // verus!
