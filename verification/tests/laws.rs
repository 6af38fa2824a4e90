use hvtt::engine::tidy;
use hvtt::update::{parse_version, Version};

fn single_spaced(t: &str) -> bool {
    let c: Vec<char> = t.chars().collect();
    (0..c.len()).all(|i| {
        !c[i].is_whitespace()
            || (c[i] == ' ' && i > 0 && i + 1 < c.len() && !c[i - 1].is_whitespace() && !c[i + 1].is_whitespace())
    })
}

#[test]
fn tidied_text_is_always_single_spaced() {
    for raw in [
        "",
        "   ",
        " a \n\n b\t\tc \r\n",
        "[x]\n(y)\n  z  ",
        "\u{a0}word\u{2003}word\u{3000}",
        "one\ttwo\nthree",
    ] {
        let t = tidy(raw);
        assert!(single_spaced(&t), "{raw:?} gave {t:?}");
    }
    assert_eq!(tidy("\u{a0}word\u{2003}word\u{3000}"), "word word");
}

#[test]
fn versions_order_by_major_then_minor_then_patch() {
    let v = |s: &str| parse_version(s).unwrap();
    assert!(v("1.0.0") > v("0.99.99"));
    assert!(v("0.2.0") > v("0.1.9"));
    assert!(v("0.1.10") > v("0.1.9"));
    assert_eq!(v(" v1.2.3 "), Version(1, 2, 3));
    assert_eq!(v("vv1.2.3"), Version(1, 2, 3));
    assert_eq!(parse_version("1.2.+3"), Some(Version(1, 2, 3)));
    assert_eq!(parse_version("1.2.18446744073709551616"), None);
}
