use punktfunk_linux::double::{is_positive, to_i32, to_u32, ONE};
use punktfunk_linux::json::{parse, Json};
use punktfunk_linux::text::{
    begins_with, comes_before, concat2, concat3, debug_strings, decimal, is_text, is_white_space,
    trim,
};

fn doubles() -> Vec<f64> {
    vec![
        0.0,
        -0.0,
        0.5,
        -0.5,
        0.999999999,
        1.0,
        -1.0,
        1.5,
        -1.5,
        2.0,
        1920.0,
        59940.0,
        143856.7,
        -1920.0,
        -1920.9,
        2147483646.5,
        2147483647.0,
        2147483647.9,
        2147483648.0,
        2147483648.5,
        2147483649.0,
        -2147483647.5,
        -2147483648.0,
        -2147483648.9,
        -2147483649.0,
        4294967294.9,
        4294967295.0,
        4294967295.5,
        4294967296.0,
        8589934591.0,
        8589934592.0,
        1e15,
        4503599627370496.0,
        9007199254740993.0,
        1e18,
        -1e18,
        1e300,
        -1e300,
        f64::MAX,
        f64::MIN,
        f64::MIN_POSITIVE,
        -f64::MIN_POSITIVE,
        5e-324,
        f64::EPSILON,
        f64::INFINITY,
        f64::NEG_INFINITY,
        f64::NAN,
        -f64::NAN,
    ]
}

#[test]
fn doubles_become_integers_as_casts_make_them() {
    for d in doubles() {
        assert_eq!(to_u32(d.to_bits()), d as u32, "{d}");
        assert_eq!(to_i32(d.to_bits()), d as i32, "{d}");
        assert_eq!(is_positive(d.to_bits()), d > 0.0, "{d}");
    }
    let mut bits: u64 = 0x3fd0_0000_0000_0001;
    while bits < 0x4230_0000_0000_0000 {
        let d = f64::from_bits(bits);
        assert_eq!(to_u32(bits), d as u32);
        assert_eq!(to_i32(bits), d as i32);
        assert_eq!(to_i32((-d).to_bits()), (-d) as i32);
        bits += 0x0000_3123_4567_89ab;
    }
    assert_eq!(f64::from_bits(ONE), 1.0);
}

#[test]
fn json_is_read_into_plain_values() {
    let json = parse(r#"{"a": [null, true, 7, -7, 2.5, "x\ny"], "b": {}}"#).unwrap();
    let list = json.member("a").unwrap();
    assert!(matches!(list.element(0), Some(Json::Null)));
    assert!(matches!(list.element(1), Some(Json::Bool(true))));
    assert_eq!(list.element(2).unwrap().as_unsigned(), Some(7));
    assert_eq!(list.element(2).unwrap().as_double(), Some(7.0f64.to_bits()));
    assert_eq!(list.element(3).unwrap().as_unsigned(), None);
    assert_eq!(list.element(3).unwrap().as_double(), Some((-7.0f64).to_bits()));
    assert_eq!(list.element(4).unwrap().as_unsigned(), None);
    assert_eq!(list.element(4).unwrap().as_double(), Some(2.5f64.to_bits()));
    assert_eq!(list.element(5).unwrap().as_text().unwrap(), "x\ny");
    assert!(list.element(6).is_none());
    assert!(list.element(u64::MAX).is_none());
    assert!(list.member("a").is_none());
    assert!(json.element(0).is_none());
    assert!(json.member("c").is_none());
    assert!(json.as_text().is_none());
    assert!(json.as_double().is_none());
    assert!(matches!(json.member("b"), Some(Json::Record(entries)) if entries.is_empty()));
}

#[test]
fn a_repeated_key_has_its_last_value() {
    let json = parse(r#"{"k": 1, "k": 2}"#).unwrap();
    match &json {
        Json::Record(entries) => assert_eq!(entries.len(), 1),
        _ => panic!("not an object"),
    }
    assert_eq!(json.member("k").unwrap().as_unsigned(), Some(2));
}

#[test]
fn a_text_that_is_no_json_says_why() {
    let cause = parse("{").unwrap_err();
    assert_eq!(cause, "EOF while parsing an object at line 1 column 1");
    assert!(parse("").is_err());
    assert!(parse("[1e999]").is_err());
}

#[test]
fn texts_are_put_together_and_taken_apart() {
    assert_eq!(concat2("a", "b"), "ab");
    assert_eq!(concat3("a", "", "c"), "ac");
    assert!(is_text(&"niri".to_owned(), "niri"));
    assert!(!is_text(&"niri".to_owned(), "nir"));
    assert!(begins_with("pf-1", "pf-"));
    assert!(begins_with("pf-", "pf-"));
    assert!(begins_with("x", ""));
    assert!(!begins_with("pf", "pf-"));
    assert!(!begins_with("Pf-1", "pf-"));
}

#[test]
fn numbers_are_written_in_decimal() {
    for n in [0, 1, 9, 10, 11, 99, 100, 65535, 1234567890, u64::MAX - 1, u64::MAX] {
        assert_eq!(decimal(n), n.to_string());
    }
}

#[test]
fn white_space_is_that_of_unicode() {
    for u in 0..=0x10ffffu32 {
        if let Some(c) = char::from_u32(u) {
            assert_eq!(is_white_space(c), c.is_whitespace(), "{u:#x}");
        }
    }
}

#[test]
fn trimming_takes_white_space_off_both_ends() {
    for s in ["", " ", "a", " a", "a ", "\n a b \t", "\u{3000}ä ö\u{a0}", "\u{200b}x\u{200b}"] {
        assert_eq!(trim(s), s.trim());
    }
}

#[test]
fn strings_are_ordered_by_their_bytes() {
    let texts = ["", "a", "aa", "ab", "b", "B", "DP-1", "DP-10", "DP-2", "é", "z", "\u{10000}", "\u{ffff}"];
    for a in texts {
        for b in texts {
            assert_eq!(comes_before(a, b), a < b, "{a} {b}");
        }
    }
}

#[test]
fn lists_of_strings_are_shown_as_debug_shows_them() {
    for items in [vec![], vec!["a"], vec!["a", "b\"c\\", "ü\n\u{7f}", ""]] {
        let owned: Vec<String> = items.iter().map(|s| s.to_string()).collect();
        assert_eq!(debug_strings(&owned), format!("{items:?}"));
    }
}
