use rust_l10n::{
    detect_language, e, f, force_language, register, reset_language, t, EnvProvider, L10n,
    LexiconMap,
};

/// A source without any variable.
struct EmptyEnv;

impl EnvProvider for EmptyEnv {
    fn var(&self, _key: &str) -> Option<String> {
        None
    }
}

fn lexicon(pairs: &[(&str, &str)]) -> LexiconMap {
    let mut lexicon = LexiconMap::new();
    for (key, value) in pairs {
        lexicon.insert(key.to_string(), value.to_string());
    }
    lexicon
}

#[test]
fn test_register_translations_macro() {
    let mut l10n = L10n::new(EmptyEnv);
    register(&mut l10n, "ja", lexicon(&[("Yes", "はい"), ("No", "いいえ")]));
    register(&mut l10n, "es", lexicon(&[("Yes", "Sí"), ("No", "No")]));

    force_language(&mut l10n, "ja");
    assert_eq!(t(&l10n, "Yes"), "はい");
    assert_eq!(t(&l10n, "No"), "いいえ");

    force_language(&mut l10n, "es");
    assert_eq!(t(&l10n, "Yes"), "Sí");
}

#[test]
fn test_format_macro() {
    let mut l10n = L10n::new(EmptyEnv);
    let mut ja_lexicon = LexiconMap::new();
    ja_lexicon.insert("Welcome, {}!".to_string(), "ようこそ、{}さん！".to_string());
    register(&mut l10n, "ja", ja_lexicon);

    force_language(&mut l10n, "ja");
    assert_eq!(f(&l10n, "Welcome, {}!", &["Bob"]), "ようこそ、Bobさん！");
}

#[test]
fn test_force_language_works() {
    let mut l10n = L10n::new(EmptyEnv);
    register(
        &mut l10n,
        "ja",
        lexicon(&[("Test message", "テストメッセージ"), ("Error occurred", "エラーが発生しました")]),
    );
    register(
        &mut l10n,
        "es",
        lexicon(&[("Test message", "Mensaje de prueba"), ("Error occurred", "Ocurrió un error")]),
    );

    force_language(&mut l10n, "ja");
    assert_eq!(t(&l10n, "Test message"), "テストメッセージ");
    assert_eq!(t(&l10n, "Error occurred"), "エラーが発生しました");

    force_language(&mut l10n, "es");
    assert_eq!(t(&l10n, "Test message"), "Mensaje de prueba");
    assert_eq!(t(&l10n, "Error occurred"), "Ocurrió un error");

    force_language(&mut l10n, "en");
    assert_eq!(t(&l10n, "Test message"), "Test message");
    assert_eq!(t(&l10n, "Error occurred"), "Error occurred");

    reset_language(&mut l10n);
}

#[test]
fn error_messages_format_like_other_messages() {
    let mut l10n = L10n::new(EmptyEnv);
    register(&mut l10n, "ja", lexicon(&[("Error: {}", "エラー: {}")]));
    force_language(&mut l10n, "ja");
    assert_eq!(e(&l10n, "Error: {}", &["接続失敗"]), "エラー: 接続失敗");
    assert_eq!(e(&l10n, "File not found", &[]), "File not found");
    assert_eq!(f(&l10n, "Error: {}", &["接続失敗"]), e(&l10n, "Error: {}", &["接続失敗"]));
}

#[test]
fn detect_language_reports_forced_then_fallback() {
    let mut l10n = L10n::new(EmptyEnv);
    assert_eq!(detect_language(&l10n), "en");
    force_language(&mut l10n, "ja");
    assert_eq!(detect_language(&l10n), "ja");
    reset_language(&mut l10n);
    assert_eq!(detect_language(&l10n), "en");
}
