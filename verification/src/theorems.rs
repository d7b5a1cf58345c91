//! What holds of a catalog across several calls.

use crate::environment::{
    detected_language, environment_gives, observed, EnvProvider, EnvView,
};
use crate::registry::{is_registered, translation, Lexicon};
use crate::{forces, registers, resets, L10n};
use vstd::prelude::*;

verus! {

/// Once a language is forced, a phrase that is registered for it reads as
/// its registered translation.
pub proof fn lemma_forced_language_translates<E: EnvProvider>(
    before: L10n<E>,
    after: L10n<E>,
    lang: Seq<char>,
    phrase: Seq<char>,
    out: Seq<char>,
)
    requires
        is_registered(before.world(), lang, phrase),
        forces(before, after, lang),
        after.translates(phrase, out),
    ensures
        out == before.world()[lang][phrase],
{
}

/// A phrase reads as itself when no language that may be active holds a
/// translation of it.
pub proof fn lemma_unregistered_phrase_reads_as_itself<E: EnvProvider>(
    l10n: L10n<E>,
    phrase: Seq<char>,
    out: Seq<char>,
)
    requires
        forall|lang: Seq<char>| l10n.resolves_to(lang) ==> !is_registered(l10n.world(), lang, phrase),
        l10n.translates(phrase, out),
    ensures
        out == phrase,
{
}

/// After a language was forced, it is the language that is detected,
/// whatever the environment holds.
pub proof fn lemma_forced_language_is_detected<E: EnvProvider>(
    before: L10n<E>,
    after: L10n<E>,
    lang: Seq<char>,
    detected: Seq<char>,
)
    requires
        forces(before, after, lang),
        after.resolves_to(detected),
    ensures
        detected == lang,
{
}

/// After a reset that follows a forced language, the language that is
/// detected is one that the environment alone gives, by the precedence
/// among its variables; where no language was forced to begin with, it is a
/// language that could have been detected then.
pub proof fn lemma_reset_restores_environment<E: EnvProvider>(
    start: L10n<E>,
    forced: L10n<E>,
    reset: L10n<E>,
    lang: Seq<char>,
    detected: Seq<char>,
)
    requires
        forces(start, forced, lang),
        resets(forced, reset),
        reset.resolves_to(detected),
    ensures
        environment_gives(start.env(), detected),
        start.forced() is None ==> start.resolves_to(detected),
{
}

/// With a source that gives one answer per variable, the active language
/// is determined by the forced language and the environment.
pub proof fn lemma_resolution_is_deterministic<E: EnvProvider>(
    l10n: L10n<E>,
    first: Seq<char>,
    second: Seq<char>,
)
    requires
        forall|key: Seq<char>, a: Option<Seq<char>>, b: Option<Seq<char>>|
            #![trigger l10n.env().reports(key, a), l10n.env().reports(key, b)]
            l10n.env().reports(key, a) && l10n.env().reports(key, b) ==> a == b,
        l10n.resolves_to(first),
        l10n.resolves_to(second),
    ensures
        first == second,
{
    if l10n.forced() is None {
        let one: EnvView = choose|view: EnvView|
            observed(&l10n.env(), view) && first == detected_language(view);
        let two: EnvView = choose|view: EnvView|
            observed(&l10n.env(), view) && second == detected_language(view);
        assert(one == two);
    }
}

/// A registration takes effect: each phrase that it brings is registered
/// for its language afterwards, with the translation that it brings.
pub proof fn lemma_registration_takes_effect<E: EnvProvider>(
    before: L10n<E>,
    after: L10n<E>,
    lang: Seq<char>,
    added: Lexicon,
    phrase: Seq<char>,
)
    requires
        registers(before, after, lang, added),
        added.contains_key(phrase),
    ensures
        is_registered(after.world(), lang, phrase),
        after.world()[lang][phrase] == added[phrase],
{
}

/// Two registrations for one language merge: a phrase of the second reads
/// as the second says, a phrase only of the first as the first says, and
/// every other phrase and every other language as before.
pub proof fn lemma_registrations_merge<E: EnvProvider>(
    start: L10n<E>,
    middle: L10n<E>,
    end: L10n<E>,
    lang: Seq<char>,
    first: Lexicon,
    second: Lexicon,
    phrase: Seq<char>,
    other: Seq<char>,
)
    requires
        registers(start, middle, lang, first),
        registers(middle, end, lang, second),
    ensures
        second.contains_key(phrase) ==> translation(end.world(), lang, phrase) == second[phrase],
        first.contains_key(phrase) && !second.contains_key(phrase) ==> translation(
            end.world(),
            lang,
            phrase,
        ) == first[phrase],
        !first.contains_key(phrase) && !second.contains_key(phrase) ==> translation(
            end.world(),
            lang,
            phrase,
        ) == translation(start.world(), lang, phrase),
        other != lang ==> translation(end.world(), other, phrase) == translation(
            start.world(),
            other,
            phrase,
        ),
{
}

/// A registration creates its language and removes nothing: the language
/// exists afterwards, and whatever was registered before still is.
pub proof fn lemma_registry_only_grows<E: EnvProvider>(
    before: L10n<E>,
    after: L10n<E>,
    lang: Seq<char>,
    added: Lexicon,
    other: Seq<char>,
    phrase: Seq<char>,
)
    requires
        registers(before, after, lang, added),
    ensures
        after.world().contains_key(lang),
        before.world().contains_key(other) ==> after.world().contains_key(other),
        is_registered(before.world(), other, phrase) ==> is_registered(after.world(), other, phrase),
{
}

} // verus!
