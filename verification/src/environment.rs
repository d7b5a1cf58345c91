//! The environment-like variables that language detection consults, and the
//! order of precedence among them.

use crate::locale::{language_code, normalize_locale};
use vstd::prelude::*;

verus! {

/// Name of the variable that is probed first, ahead of the locale
/// variables, so that a test run can name its language.
pub const TEST_MODE_KEY: &'static str = "L10N_TEST_MODE";

/// Name of the locale variable that is probed second.
pub const LANGUAGE_KEY: &'static str = "LANGUAGE";

/// Name of the locale variable that is probed third.
pub const LC_ALL_KEY: &'static str = "LC_ALL";

/// Name of the locale variable that is probed fourth.
pub const LC_MESSAGES_KEY: &'static str = "LC_MESSAGES";

/// Name of the locale variable that is probed last.
pub const LANG_KEY: &'static str = "LANG";

/// Name of the variable that gives the language when none of the probed
/// variables is set. Its value is taken as it stands.
pub const DEFAULT_LANGUAGE_KEY: &'static str = "L10N_DEFAULT_LANGUAGE";

/// The language that is used when the environment names none.
pub const FALLBACK_LANGUAGE: &'static str = "en";

/// The characters of an optional string.
pub open spec fn text(value: Option<String>) -> Option<Seq<char>> {
    match value {
        Some(s) => Some(s@),
        None => None,
    }
}

/// A source of environment-like variables.
///
/// An implementation may describe by `reports` which answers a lookup can
/// give: a fixed table admits exactly what it holds. A source that says
/// nothing admits every answer, as one must whose variables can change
/// between two lookups.
pub trait EnvProvider: Send + Sync {
    /// Whether a lookup of `key` may answer `value`, where `None` stands for
    /// a variable that is not present.
    open spec fn reports(&self, key: Seq<char>, value: Option<Seq<char>>) -> bool {
        true
    }

    /// Looks up the variable `key`. A variable that is not present gives
    /// `None`, which differs from a variable that is present and empty.
    fn var(&self, key: &str) -> (value: Option<String>)
        ensures
            self.reports(key@, text(value)),
    ;
}

/// What one reading of the consulted variables gave, as plain text.
pub struct EnvView {
    pub test_mode: Option<Seq<char>>,
    pub language: Option<Seq<char>>,
    pub lc_all: Option<Seq<char>>,
    pub lc_messages: Option<Seq<char>>,
    pub lang: Option<Seq<char>>,
    pub default_language: Option<Seq<char>>,
}

/// A variable counts only when it is present and not empty.
pub open spec fn is_set(value: Option<Seq<char>>) -> bool {
    value is Some && value->0.len() > 0
}

/// The value of the first locale variable that is set, in the order test
/// mode, `LANGUAGE`, `LC_ALL`, `LC_MESSAGES`, `LANG`.
pub open spec fn first_locale(env: EnvView) -> Option<Seq<char>> {
    if is_set(env.test_mode) {
        env.test_mode
    } else if is_set(env.language) {
        env.language
    } else if is_set(env.lc_all) {
        env.lc_all
    } else if is_set(env.lc_messages) {
        env.lc_messages
    } else if is_set(env.lang) {
        env.lang
    } else {
        None
    }
}

/// The language that the environment alone gives: the language code of the
/// first locale variable that is set; else the default-language variable as
/// it stands, when it is set; else the fallback.
pub open spec fn detected_language(env: EnvView) -> Seq<char> {
    match first_locale(env) {
        Some(locale) => language_code(locale),
        None => if is_set(env.default_language) {
            env.default_language->0
        } else {
            FALLBACK_LANGUAGE@
        },
    }
}

/// The active language: the forced one verbatim when there is one, else what
/// the environment gives.
pub open spec fn resolved_language(forced: Option<Seq<char>>, env: EnvView) -> Seq<char> {
    match forced {
        Some(lang) => lang,
        None => detected_language(env),
    }
}

/// Whether `view` is a reading that `env` may give of the six variables.
pub open spec fn observed<E: EnvProvider>(env: &E, view: EnvView) -> bool {
    &&& env.reports(TEST_MODE_KEY@, view.test_mode)
    &&& env.reports(LANGUAGE_KEY@, view.language)
    &&& env.reports(LC_ALL_KEY@, view.lc_all)
    &&& env.reports(LC_MESSAGES_KEY@, view.lc_messages)
    &&& env.reports(LANG_KEY@, view.lang)
    &&& env.reports(DEFAULT_LANGUAGE_KEY@, view.default_language)
}

/// Whether `lang` is what some reading of `env` gives as the language.
pub open spec fn environment_gives<E: EnvProvider>(env: E, lang: Seq<char>) -> bool {
    exists|view: EnvView| observed(&env, view) && lang == detected_language(view)
}

/// One reading of the six variables that language detection consults.
pub struct EnvSnapshot {
    pub test_mode: Option<String>,
    pub language: Option<String>,
    pub lc_all: Option<String>,
    pub lc_messages: Option<String>,
    pub lang: Option<String>,
    pub default_language: Option<String>,
}

impl View for EnvSnapshot {
    type V = EnvView;

    open spec fn view(&self) -> EnvView {
        EnvView {
            test_mode: text(self.test_mode),
            language: text(self.language),
            lc_all: text(self.lc_all),
            lc_messages: text(self.lc_messages),
            lang: text(self.lang),
            default_language: text(self.default_language),
        }
    }
}

/// Tells whether a looked-up variable is present and not empty.
fn has_value(value: &Option<String>) -> (r: bool)
    ensures
        r == is_set(text(*value)),
{
    match value {
        Some(s) => !s.as_str().is_empty(),
        None => false,
    }
}

impl EnvSnapshot {
    /// Reads the six variables from `env`, in order of precedence.
    pub fn capture<E: EnvProvider>(env: &E) -> (snapshot: EnvSnapshot)
        ensures
            observed(env, snapshot@),
    {
        let test_mode = env.var(TEST_MODE_KEY);
        let language = env.var(LANGUAGE_KEY);
        let lc_all = env.var(LC_ALL_KEY);
        let lc_messages = env.var(LC_MESSAGES_KEY);
        let lang = env.var(LANG_KEY);
        let default_language = env.var(DEFAULT_LANGUAGE_KEY);
        EnvSnapshot { test_mode, language, lc_all, lc_messages, lang, default_language }
    }

    /// The first locale variable that is set, by precedence.
    pub fn first_locale(&self) -> (r: Option<&String>)
        ensures
            match r {
                Some(locale) => first_locale(self@) == Some(locale@),
                None => first_locale(self@) is None,
            },
    {
        if has_value(&self.test_mode) {
            self.test_mode.as_ref()
        } else if has_value(&self.language) {
            self.language.as_ref()
        } else if has_value(&self.lc_all) {
            self.lc_all.as_ref()
        } else if has_value(&self.lc_messages) {
            self.lc_messages.as_ref()
        } else if has_value(&self.lang) {
            self.lang.as_ref()
        } else {
            None
        }
    }

    /// The language that this reading of the environment gives.
    pub fn detect(&self) -> (lang: String)
        ensures
            lang@ == detected_language(self@),
    {
        match self.first_locale() {
            Some(locale) => normalize_locale(locale.as_str()),
            None => {
                if has_value(&self.default_language) {
                    match &self.default_language {
                        Some(lang) => lang.clone(),
                        None => FALLBACK_LANGUAGE.to_owned(),
                    }
                } else {
                    FALLBACK_LANGUAGE.to_owned()
                }
            },
        }
    }
}

} // verus!
