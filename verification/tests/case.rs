use spindle_macros::case::{Case, Cased};
use spindle_macros::{camel_word, snake_to_camel};

#[test]
fn underscore_splits_correct_with_no_underscores() {
    let s = "foo_bar";
    assert_eq!(s.split_underscores(), (0, Some(s)));
    assert_eq!(s.rsplit_underscores(), (Some(s), 0));
}

#[test]
fn underscore_splits_correct_with_one_underscore() {
    let s = "_foo_bar_";
    assert_eq!(s.split_underscores(), (1, Some("foo_bar_")));
    assert_eq!(s.rsplit_underscores(), (Some("_foo_bar"), 1));
}

#[test]
fn cases_identified_correctly() {
    let s = "foo_bar";
    assert_eq!(s.case(), Case::LowerSnake);
    let s = "FooBar";
    assert_eq!(s.case(), Case::UpperCamel);
    let s = "U";
    assert_eq!(s.case(), Case::UpperCamel);
    let s = "i32";
    assert_eq!(s.case(), Case::SupportedPrimitive);
    let s = "char";
    assert_eq!(s.case(), Case::UnsupportedPrimitive);
}

#[test]
fn unknown_case_for_mixed_names() {
    assert_eq!("Foo_Bar".case(), Case::Unknown);
    assert_eq!("fooBar".case(), Case::Unknown);
    assert_eq!("usize".case(), Case::UnsupportedPrimitive);
    assert_eq!("f64".case(), Case::SupportedPrimitive);
}

#[test]
fn all_underscores_split_to_nothing() {
    let s = "___";
    assert_eq!(s.split_underscores(), (3, None));
    assert_eq!(s.rsplit_underscores(), (None, 3));
    let e = "";
    assert_eq!(e.split_underscores(), (0, None));
    assert_eq!(e.rsplit_underscores(), (None, 0));
}

#[test]
fn split_underscores_restores_the_name() {
    // the law: the underscores counted, followed by the rest, give the name back
    for s in ["__a_b", "a__", "_x_", "plain", "__"] {
        let (k, rest) = s.split_underscores();
        let rebuilt = format!("{}{}", "_".repeat(k), rest.unwrap_or(""));
        assert_eq!(rebuilt, s);
        let (head, t) = s.rsplit_underscores();
        let rebuilt = format!("{}{}", head.unwrap_or(""), "_".repeat(t));
        assert_eq!(rebuilt, s);
    }
}

#[test]
fn camel_word_capitalizes_one_word() {
    assert_eq!(camel_word("foo"), "Foo");
    assert_eq!(camel_word("fOO"), "Foo");
    assert_eq!(camel_word("U"), "U");
    assert_eq!(camel_word(""), "");
    assert_eq!(camel_word("foo_bar"), "Foo_bar");
}

#[test]
fn snake_to_camel_joins_words() {
    assert_eq!(snake_to_camel("square_over_two"), "SquareOverTwo");
    assert_eq!(snake_to_camel("foo"), "Foo");
    assert_eq!(snake_to_camel("_foo_bar_"), "FooBar");
    assert_eq!(snake_to_camel("i32_to_f64"), "I32ToF64");
    assert_eq!(snake_to_camel(""), "");
    assert!(!snake_to_camel("a__b_c").contains('_'));
}

#[test]
fn empty_name_is_of_unknown_case() {
    assert_eq!("".case(), Case::Unknown);
    for p in ["bool", "f32", "f64", "i8", "i16", "i32", "i64", "i128", "str", "u8", "u16", "u32", "u64", "u128"] {
        assert_eq!(p.case(), Case::SupportedPrimitive);
    }
    for p in ["usize", "isize", "char"] {
        assert_eq!(p.case(), Case::UnsupportedPrimitive);
    }
}

#[test]
fn ascii_camel_word_is_idempotent() {
    for s in ["fOO", "foo_bAR", "x", "42abc", ""] {
        let once = camel_word(s);
        assert_eq!(camel_word(&once), once);
        assert_eq!(once.len(), s.len());
    }
}

#[test]
fn snake_to_camel_word_by_word() {
    for s in ["a__b_c", "_foo_bar_", "i32_to_f64", "square_over_two", "x"] {
        let joined: String = s.split('_').filter(|w| !w.is_empty()).map(camel_word).collect();
        let r = snake_to_camel(s);
        assert_eq!(r, joined);
        assert_eq!(r.len(), s.len() - s.matches('_').count());
        assert_eq!(r.to_ascii_lowercase(), s.replace('_', "").to_ascii_lowercase());
    }
}
