//! The registry of translations: for each language code a lexicon that maps
//! source phrases to translated phrases.

use vstd::hash_map::StringHashMap;
use vstd::prelude::*;

verus! {

/// Phrases of one language with their translations.
pub type LexiconMap = StringHashMap<String>;

/// A lexicon as a mathematical map from phrase to translation.
pub type Lexicon = Map<Seq<char>, Seq<char>>;

/// The whole registry as a mathematical map from language code to lexicon.
pub type World = Map<Seq<char>, Lexicon>;

/// The phrases of `lexicon` with their translations, as plain text.
pub open spec fn entries(lexicon: &LexiconMap) -> Lexicon {
    Map::new(|phrase: Seq<char>| lexicon@.contains_key(phrase), |phrase: Seq<char>| lexicon@[phrase]@)
}

/// The lexicon of `lang` in `world`; empty for a language that has none.
pub open spec fn lexicon_of(world: World, lang: Seq<char>) -> Lexicon {
    if world.contains_key(lang) {
        world[lang]
    } else {
        Map::empty()
    }
}

/// Whether `world` holds a translation of `phrase` for `lang`.
pub open spec fn is_registered(world: World, lang: Seq<char>, phrase: Seq<char>) -> bool {
    world.contains_key(lang) && world[lang].contains_key(phrase)
}

/// What `phrase` reads as in `lang`: its translation where one is
/// registered, else the phrase itself.
pub open spec fn translation(world: World, lang: Seq<char>, phrase: Seq<char>) -> Seq<char> {
    if is_registered(world, lang, phrase) {
        world[lang][phrase]
    } else {
        phrase
    }
}

/// The registry after `added` was merged into the lexicon of `lang`: the
/// language exists afterwards, phrases of `added` take their new
/// translation, and every other phrase and language stays as it was.
pub open spec fn with_registered(world: World, lang: Seq<char>, added: Lexicon) -> World {
    world.insert(lang, lexicon_of(world, lang).union_prefer_right(added))
}

/// Registrations for two different languages do not touch each other: in
/// either order they give the same registry.
pub proof fn lemma_distinct_languages_commute(
    world: World,
    one: Seq<char>,
    first: Lexicon,
    other: Seq<char>,
    second: Lexicon,
)
    requires
        one != other,
    ensures
        with_registered(with_registered(world, one, first), other, second) == with_registered(
            with_registered(world, other, second),
            one,
            first,
        ),
{
    assert(with_registered(with_registered(world, one, first), other, second) =~= with_registered(
        with_registered(world, other, second),
        one,
        first,
    ));
}

/// The registry of all languages.
///
/// Each language owns a slot in `lexicons`; `slots` finds it by language code.
pub struct WorldMap {
    slots: StringHashMap<usize>,
    lexicons: Vec<LexiconMap>,
}

impl View for WorldMap {
    type V = World;

    closed spec fn view(&self) -> World {
        Map::new(
            |lang: Seq<char>| self.slots@.contains_key(lang),
            |lang: Seq<char>| entries(&self.lexicons@[self.slots@[lang] as int]),
        )
    }
}

impl WorldMap {
    /// Every language points at a slot that exists, and no two languages
    /// share a slot.
    #[verifier::type_invariant]
    spec fn well_formed(&self) -> bool {
        &&& forall|lang: Seq<char>| #[trigger]
            self.slots@.contains_key(lang) ==> self.slots@[lang] < self.lexicons@.len()
        &&& forall|a: Seq<char>, b: Seq<char>|
            #![trigger self.slots@[a], self.slots@[b]]
            self.slots@.contains_key(a) && self.slots@.contains_key(b) && self.slots@[a]
                == self.slots@[b] ==> a == b
    }

    /// A registry without any language.
    pub fn new() -> (world: WorldMap)
        ensures
            world@ == World::empty(),
    {
        let world = WorldMap { slots: StringHashMap::new(), lexicons: Vec::new() };
        assert(world@ =~= World::empty());
        world
    }

    /// Merges `lexicon` into the lexicon of `lang`, which is created when
    /// the language is new.
    pub fn register(&mut self, lang: &str, lexicon: LexiconMap)
        ensures
            final(self)@ == with_registered(old(self)@, lang@, entries(&lexicon)),
    {
        proof {
            use_type_invariant(&*self);
        }
        let ghost added = entries(&lexicon);
        let ghost before = self@;
        // The two parts leave `self` while they change together, so that the
        // invariant, which ties them, holds of `self` throughout.
        let mut slots: StringHashMap<usize> = StringHashMap::new();
        let mut lexicons: Vec<LexiconMap> = Vec::new();
        core::mem::swap(&mut self.slots, &mut slots);
        core::mem::swap(&mut self.lexicons, &mut lexicons);
        let found: Option<usize> = match slots.get(lang) {
            Some(slot) => Some(*slot),
            None => None,
        };
        match found {
            Some(slot) => {
                let ghost prior = entries(&lexicons@[slot as int]);
                lexicons[slot].union_prefer_right(lexicon);
                assert(entries(&lexicons@[slot as int]) =~= prior.union_prefer_right(added));
            },
            None => {
                let slot: usize = lexicons.len();
                lexicons.push(lexicon);
                slots.insert(lang.to_owned(), slot);
                assert(entries(&lexicons@[slot as int]) =~= Lexicon::empty().union_prefer_right(
                    added,
                ));
            },
        }
        self.lexicons = lexicons;
        self.slots = slots;
        assert(self@ =~= with_registered(before, lang@, added));
    }

    /// The registered translation of `phrase` for `lang`, if there is one.
    pub fn lookup(&self, lang: &str, phrase: &str) -> (found: Option<&String>)
        ensures
            match found {
                Some(translated) => is_registered(self@, lang@, phrase@) && translated@
                    == self@[lang@][phrase@],
                None => !is_registered(self@, lang@, phrase@),
            },
    {
        proof {
            use_type_invariant(self);
        }
        match self.slots.get(lang) {
            Some(slot) => self.lexicons[*slot].get(phrase),
            None => None,
        }
    }

    /// What `phrase` reads as in `lang`: the registered translation, or the
    /// phrase unchanged when none is registered.
    pub fn translate(&self, lang: &str, phrase: &str) -> (out: String)
        ensures
            out@ == translation(self@, lang@, phrase@),
    {
        match self.lookup(lang, phrase) {
            Some(translated) => translated.clone(),
            None => phrase.to_owned(),
        }
    }
}

} // verus!
