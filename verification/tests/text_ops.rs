use debai::text::{
    joined, contains_text, eq_ignore_ascii_case_text, is_blank, lines_of, same_text,
    starts_with_text, strip_leading_text, trim_text,
};

const SAMPLES: [&str; 14] = [
    "",
    "a",
    "apt install",
    "  padded\t",
    "\u{3000}ideographic\u{2028}",
    "\u{85}\u{a0}x\u{1680}",
    "line1\nline2\n",
    "line1\r\nline2",
    "a\r",
    "\n",
    "\n\n",
    "x\r\n\r\n",
    "SANDBOX_DIR: SANDBOX_DIR: /tmp/s",
    "ÄÖÜ straße",
];

#[test]
fn contains_agrees_with_std() {
    let patterns = ["", "a", "apt ", "line", "\n", "ß", "xyz", "2\n"];
    for s in SAMPLES {
        for p in patterns {
            assert_eq!(contains_text(s, p), s.contains(p), "{:?} {:?}", s, p);
        }
    }
}

#[test]
fn trim_agrees_with_std() {
    for s in SAMPLES {
        assert_eq!(trim_text(s), s.trim(), "{:?}", s);
    }
    assert_eq!(trim_text("\u{200a}\u{202f} mid \u{205f}\u{3000}"), "mid");
    assert_eq!(trim_text("\u{200b}zero-width\u{200b}"), "\u{200b}zero-width\u{200b}");
}

#[test]
fn blank_lines_are_recognised() {
    assert!(is_blank(""));
    assert!(is_blank(" \t\r\n"));
    assert!(!is_blank(" x "));
}

#[test]
fn lines_agree_with_std() {
    for s in SAMPLES {
        let ours: Vec<&str> = lines_of(s);
        let theirs: Vec<&str> = s.lines().collect();
        assert_eq!(ours, theirs, "{:?}", s);
    }
}

#[test]
fn prefix_operations_agree_with_std() {
    for s in SAMPLES {
        for p in ["SANDBOX_DIR: ", "a", "line", "ab"] {
            assert_eq!(starts_with_text(s, p), s.starts_with(p));
            assert_eq!(strip_leading_text(s, p), s.trim_start_matches(p));
        }
        assert_eq!(strip_leading_text(s, ""), s);
    }
}

#[test]
fn ascii_case_comparison_agrees_with_std() {
    let pairs = [
        ("Install Nginx", "install nginx"),
        ("ÄPT", "äpt"),
        ("apt", "apt "),
        ("", ""),
        ("Straße", "STRASSE"),
        ("[]", "{}"),
    ];
    for (a, b) in pairs {
        assert_eq!(eq_ignore_ascii_case_text(a, b), a.eq_ignore_ascii_case(b), "{:?} {:?}", a, b);
    }
}

#[test]
fn equality_and_concatenation() {
    assert!(same_text("abc", "abc"));
    assert!(!same_text("abc", "abd"));
    assert!(!same_text("abc", "ab"));
    assert_eq!(joined("Plugin '", "x"), "Plugin 'x");
}
