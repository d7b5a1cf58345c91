//! Message lookup and positional formatting for localized programs.
//!
//! Callers register translations of phrases per language code, then ask for
//! a phrase in the language that is active: the one that was forced, or
//! else the one that the environment names. A phrase without a translation
//! reads as itself.

pub mod environment;
pub mod locale;
pub mod registry;
pub mod template;
pub mod theorems;

pub use environment::{EnvProvider, EnvSnapshot};
pub use registry::{LexiconMap, WorldMap};

use environment::{environment_gives, text};
use registry::{entries, translation, with_registered, Lexicon, World};
use template::{arg_texts, substitute, substituted};
use vstd::prelude::*;

verus! {

/// A translation catalog with its language setting and its source of
/// environment variables.
pub struct L10n<E: EnvProvider> {
    world: WorldMap,
    forced_language: Option<String>,
    env_provider: E,
}

/// Whether `after` is `before` with `added` merged into the lexicon of `lang`.
pub open spec fn registers<E: EnvProvider>(
    before: L10n<E>,
    after: L10n<E>,
    lang: Seq<char>,
    added: Lexicon,
) -> bool {
    &&& after.world() == with_registered(before.world(), lang, added)
    &&& after.forced() == before.forced()
    &&& after.env() == before.env()
}

/// Whether `after` is `before` with `lang` as the forced language.
pub open spec fn forces<E: EnvProvider>(before: L10n<E>, after: L10n<E>, lang: Seq<char>) -> bool {
    &&& after.forced() == Some(lang)
    &&& after.world() == before.world()
    &&& after.env() == before.env()
}

/// Whether `after` is `before` without a forced language.
pub open spec fn resets<E: EnvProvider>(before: L10n<E>, after: L10n<E>) -> bool {
    &&& after.forced() is None
    &&& after.world() == before.world()
    &&& after.env() == before.env()
}

impl<E: EnvProvider> L10n<E> {
    /// The registered translations.
    pub closed spec fn world(&self) -> World {
        self.world@
    }

    /// The forced language, if one is set.
    pub closed spec fn forced(&self) -> Option<Seq<char>> {
        text(self.forced_language)
    }

    /// The source of environment variables.
    pub closed spec fn env(&self) -> E {
        self.env_provider
    }

    /// Whether `lang` may be the active language: the forced language when
    /// one is set, else what the environment gives.
    pub open spec fn resolves_to(&self, lang: Seq<char>) -> bool {
        match self.forced() {
            Some(forced) => lang == forced,
            None => environment_gives(self.env(), lang),
        }
    }

    /// Whether `out` may be what `phrase` reads as in the active language.
    pub open spec fn translates(&self, phrase: Seq<char>, out: Seq<char>) -> bool {
        exists|lang: Seq<char>|
            self.resolves_to(lang) && out == #[trigger] translation(self.world(), lang, phrase)
    }

    /// Whether `out` may be `phrase` in the active language with `args`
    /// substituted for its placeholders.
    pub open spec fn formats(&self, phrase: Seq<char>, args: Seq<Seq<char>>, out: Seq<char>) -> bool {
        exists|translated: Seq<char>|
            self.translates(phrase, translated) && out == #[trigger] substituted(translated, args)
    }

    /// An empty catalog without a forced language, over `env_provider`.
    pub fn new(env_provider: E) -> (l10n: Self)
        ensures
            l10n.world() == World::empty(),
            l10n.forced() is None,
            l10n.env() == env_provider,
    {
        L10n { world: WorldMap::new(), forced_language: None, env_provider }
    }

    /// Merges `lexicon` into the lexicon of `lang`.
    pub fn register(&mut self, lang: &str, lexicon: LexiconMap)
        ensures
            registers(*old(self), *final(self), lang@, entries(&lexicon)),
    {
        self.world.register(lang, lexicon);
    }

    /// The active language.
    pub fn detect_language(&self) -> (lang: String)
        ensures
            self.resolves_to(lang@),
    {
        match &self.forced_language {
            Some(forced) => forced.clone(),
            None => {
                let snapshot = EnvSnapshot::capture(&self.env_provider);
                snapshot.detect()
            },
        }
    }

    /// `phrase` in the active language; `phrase` itself where the active
    /// language has no translation of it.
    pub fn translate(&self, phrase: &str) -> (out: String)
        ensures
            self.translates(phrase@, out@),
    {
        let lang = self.detect_language();
        let out = self.world.translate(lang.as_str(), phrase);
        assert(out@ == translation(self.world(), lang@, phrase@));
        out
    }

    /// `phrase` in the active language, with `args` substituted in order
    /// for its placeholders.
    pub fn format(&self, phrase: &str, args: &[&str]) -> (out: String)
        ensures
            self.formats(phrase@, arg_texts(args@), out@),
    {
        let translated = self.translate(phrase);
        let out = substitute(translated.as_str(), args);
        assert(out@ == substituted(translated@, arg_texts(args@)));
        out
    }

    /// Makes `lang` the active language, whatever the environment says.
    pub fn force_language(&mut self, lang: &str)
        ensures
            forces(*old(self), *final(self), lang@),
    {
        self.forced_language = Some(lang.to_owned());
    }

    /// Drops the forced language, so that the environment decides again.
    pub fn reset_language(&mut self)
        ensures
            resets(*old(self), *final(self)),
    {
        self.forced_language = None;
    }
}

/// Merges `lexicon` into the lexicon of `lang` in `l10n`.
pub fn register<E: EnvProvider>(l10n: &mut L10n<E>, lang: &str, lexicon: LexiconMap)
    ensures
        registers(*old(l10n), *final(l10n), lang@, entries(&lexicon)),
{
    l10n.register(lang, lexicon);
}

/// Translates `phrase` into the active language of `l10n`.
pub fn t<E: EnvProvider>(l10n: &L10n<E>, phrase: &str) -> (out: String)
    ensures
        l10n.translates(phrase@, out@),
{
    l10n.translate(phrase)
}

/// Translates `phrase` and substitutes `args` for its placeholders.
pub fn f<E: EnvProvider>(l10n: &L10n<E>, phrase: &str, args: &[&str]) -> (out: String)
    ensures
        l10n.formats(phrase@, arg_texts(args@), out@),
{
    l10n.format(phrase, args)
}

/// Translates an error message and substitutes `args` for its placeholders.
pub fn e<E: EnvProvider>(l10n: &L10n<E>, phrase: &str, args: &[&str]) -> (out: String)
    ensures
        l10n.formats(phrase@, arg_texts(args@), out@),
{
    l10n.format(phrase, args)
}

/// Makes `lang` the active language of `l10n`.
pub fn force_language<E: EnvProvider>(l10n: &mut L10n<E>, lang: &str)
    ensures
        forces(*old(l10n), *final(l10n), lang@),
{
    l10n.force_language(lang);
}

/// Lets the environment decide the active language of `l10n` again.
pub fn reset_language<E: EnvProvider>(l10n: &mut L10n<E>)
    ensures
        resets(*old(l10n), *final(l10n)),
{
    l10n.reset_language();
}

/// The active language of `l10n`.
pub fn detect_language<E: EnvProvider>(l10n: &L10n<E>) -> (lang: String)
    ensures
        l10n.resolves_to(lang@),
{
    l10n.detect_language()
}

} // verus!
