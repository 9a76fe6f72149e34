use msm::text::{dots, str_eq};

#[test]
fn str_eq_compares_contents() {
    assert!(str_eq("", ""));
    assert!(str_eq("running", "running"));
    assert!(!str_eq("running", "runninG"));
    assert!(!str_eq("running", "running "));
    assert!(!str_eq("", "a"));
    assert!(!str_eq("ab", "ba"));
}

#[test]
fn str_eq_on_text_outside_ascii() {
    assert!(str_eq("\u{8d77}\u{52d5}\u{4e2d}", "\u{8d77}\u{52d5}\u{4e2d}"));
    assert!(!str_eq("\u{8d77}\u{52d5}\u{4e2d}", "\u{505c}\u{6b62}\u{4e2d}"));
    assert!(!str_eq("\u{00e9}", "e\u{0301}"));
    assert!(!str_eq("\u{00e9}", "\u{00e8}"));
}

#[test]
fn str_eq_agrees_with_std() {
    let words = ["pending", "running", "stopping", "stopped", "", "stop", "st\u{00f6}pped"];
    for a in words {
        for b in words {
            assert_eq!(str_eq(a, b), a == b);
        }
    }
}

#[test]
fn dots_gives_one_dot_per_count() {
    assert_eq!(dots(0), "");
    assert_eq!(dots(1), ".");
    assert_eq!(dots(3), "...");
    assert_eq!(dots(40).len(), 40);
    assert!(dots(40).chars().all(|c| c == '.'));
}
