use fuse::text::{
    chars_of, contains_in, decimal_text, flag_str, is_whitespace, occurs_in, starts_with_in,
    trim_bounds,
};

fn text_of(v: &[char]) -> String {
    v.iter().collect()
}

const SAMPLES: [&str; 14] = [
    "",
    " ",
    "a",
    "  a  ",
    "\t\r\n a b \u{a0}\u{3000}",
    "\u{2003}x\u{2003}",
    "exec-once = ~/.config/alloy/scripts/battery.sh 10",
    "   # exec-once = scripts/x",
    "ééé",
    "\u{85}né\u{1680}",
    "a\u{200b}",
    "\u{feff}a",
    "\u{180e}a\u{180e}",
    "\n\n\n",
];

#[test]
fn decimal_text_writes_numbers_as_std_does() {
    assert_eq!(decimal_text(0), "0");
    assert_eq!(decimal_text(7), "7");
    assert_eq!(decimal_text(10), "10");
    assert_eq!(decimal_text(255), "255");
    assert_eq!(decimal_text(1000), "1000");
    assert_eq!(decimal_text(4294967295), "4294967295");
    assert_eq!(decimal_text(1761685200123), "1761685200123");
    assert_eq!(decimal_text(u128::MAX), "340282366920938463463374607431768211455");
    for n in 0..2000u128 {
        assert_eq!(decimal_text(n), n.to_string());
    }
    for k in 0..128u32 {
        let n = 1u128 << k;
        assert_eq!(decimal_text(n), n.to_string());
        assert_eq!(decimal_text(n - 1), (n - 1).to_string());
    }
}

#[test]
fn flag_str_writes_true_and_false() {
    assert_eq!(flag_str(true), "true");
    assert_eq!(flag_str(false), "false");
}

#[test]
fn is_whitespace_agrees_with_std_on_every_character() {
    for n in 0..=0x10FFFFu32 {
        if let Some(c) = char::from_u32(n) {
            assert_eq!(is_whitespace(c), c.is_whitespace(), "U+{:04X}", n);
        }
    }
}

#[test]
fn is_whitespace_knows_the_usual_characters() {
    for c in [' ', '\t', '\n', '\r', '\u{b}', '\u{c}', '\u{85}', '\u{a0}', '\u{2028}', '\u{3000}'] {
        assert!(is_whitespace(c));
    }
    for c in ['a', '0', '#', '\u{8}', '\u{e}', '\u{200b}', '\u{feff}', '\u{180e}'] {
        assert!(!is_whitespace(c));
    }
}

#[test]
fn chars_of_gives_every_character_in_order() {
    assert_eq!(chars_of(""), Vec::<char>::new());
    assert_eq!(chars_of("aé\n"), vec!['a', 'é', '\n']);
    for s in SAMPLES {
        assert_eq!(chars_of(s), s.chars().collect::<Vec<char>>());
    }
}

#[test]
fn trim_bounds_agree_with_std_trim() {
    for s in SAMPLES {
        let v = chars_of(s);
        let (a, b) = trim_bounds(&v, 0, v.len());
        assert_eq!(text_of(&v[a..b]), s.trim(), "text {:?}", s);
    }
}

#[test]
fn trim_bounds_stay_inside_the_given_range() {
    let v = chars_of("ab  cd  ef");
    assert_eq!(trim_bounds(&v, 2, 8), (4, 6));
    assert_eq!(trim_bounds(&v, 2, 4), (4, 4));
    assert_eq!(trim_bounds(&v, 0, 0), (0, 0));
    assert_eq!(trim_bounds(&v, 0, 10), (0, 10));
    assert_eq!(trim_bounds(&v, 1, 5), (1, 5));
}

#[test]
fn contains_in_agrees_with_std_contains() {
    let patterns = ["", "a", "scripts/", "exec-once", "é", "éé", "éééé", " ", "\n\n", "scripts/battery.sh", "x\u{2003}"];
    for s in SAMPLES {
        let v = chars_of(s);
        for p in patterns {
            let pat = chars_of(p);
            assert_eq!(contains_in(&v, 0, v.len(), &pat), s.contains(p), "text {:?} pattern {:?}", s, p);
            assert_eq!(starts_with_in(&v, 0, v.len(), &pat), s.starts_with(p), "text {:?} pattern {:?}", s, p);
        }
    }
}

#[test]
fn contains_in_looks_only_at_the_given_range() {
    let v = chars_of("abcabc");
    let bc = chars_of("bc");
    assert!(contains_in(&v, 0, 6, &bc));
    assert!(contains_in(&v, 3, 6, &bc));
    assert!(!contains_in(&v, 2, 4, &bc));
    assert!(!contains_in(&v, 5, 6, &bc));
    assert!(contains_in(&v, 6, 6, &chars_of("")));
    assert!(starts_with_in(&v, 1, 6, &bc));
    assert!(!starts_with_in(&v, 0, 6, &bc));
    assert!(occurs_in(&v, 0, 6, &bc, 1));
    assert!(occurs_in(&v, 0, 6, &bc, 4));
    assert!(!occurs_in(&v, 0, 6, &bc, 0));
    assert!(!occurs_in(&v, 0, 6, &bc, 5));
    assert!(!occurs_in(&v, 0, 6, &bc, 7));
    assert!(occurs_in(&v, 3, 6, &bc, 1));
}
