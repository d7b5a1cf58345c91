use rust_l10n::template::{find_placeholder, substitute};

#[test]
fn substitute_fills_single_placeholder() {
    assert_eq!(substitute("Hello, {}!", &["Alice"]), "Hello, Alice!");
}

#[test]
fn substitute_keeps_argument_order() {
    assert_eq!(substitute("{} + {} = {}", &["1", "2", "3"]), "1 + 2 = 3");
    assert_eq!(substitute("{}{}", &["a", "b"]), "ab");
}

#[test]
fn substitute_leaves_excess_placeholders() {
    assert_eq!(substitute("{} and {}", &["a"]), "a and {}");
    assert_eq!(substitute("{} {} {}", &["x", "y"]), "x y {}");
}

#[test]
fn substitute_drops_excess_arguments() {
    assert_eq!(substitute("only {}", &["a", "b"]), "only a");
    assert_eq!(substitute("none here", &["a", "b"]), "none here");
}

#[test]
fn substitute_without_arguments_is_identity() {
    assert_eq!(substitute("{}", &[]), "{}");
    assert_eq!(substitute("", &[]), "");
    assert_eq!(substitute("", &["a"]), "");
}

#[test]
fn substitute_does_not_rescan_inserted_text() {
    assert_eq!(substitute("{} {}", &["{}", "x"]), "{} x");
    assert_eq!(substitute("{}}", &["{", "x"]), "{}");
    assert_eq!(substitute("{{}", &["}", "x"]), "{}");
}

#[test]
fn substitute_takes_only_the_exact_token() {
    assert_eq!(substitute("{ } {0} {name}", &["x"]), "{ } {0} {name}");
    assert_eq!(substitute("{{}}", &["x"]), "{x}");
    assert_eq!(substitute("}{", &["x"]), "}{");
}

#[test]
fn substitute_handles_wide_characters() {
    assert_eq!(substitute("こんにちは、{}さん！", &["Alice"]), "こんにちは、Aliceさん！");
    assert_eq!(substitute("{}へようこそ", &["東京"]), "東京へようこそ");
    assert_eq!(substitute("é{}ü{}", &["ß", "ø"]), "éßüø");
}

#[test]
fn substitute_accepts_empty_arguments() {
    assert_eq!(substitute("a{}b{}c", &["", ""]), "abc");
}

#[test]
fn find_placeholder_counts_characters() {
    assert_eq!(find_placeholder("{}"), Some(0));
    assert_eq!(find_placeholder("ab{}cd{}"), Some(2));
    assert_eq!(find_placeholder("é{}"), Some(1));
    assert_eq!(find_placeholder("こんにちは、{}"), Some(6));
    assert_eq!(find_placeholder("{{}"), Some(1));
}

#[test]
fn find_placeholder_reports_absence() {
    assert_eq!(find_placeholder(""), None);
    assert_eq!(find_placeholder("{"), None);
    assert_eq!(find_placeholder("}{"), None);
    assert_eq!(find_placeholder("{ }"), None);
    assert_eq!(find_placeholder("plain"), None);
}
