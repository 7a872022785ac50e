//! The interface language and the lookup of interface texts by key.
use crate::zh_cn::{ZH_CN_ENTRIES, ZH_CN_ENTRY_COUNT};
use std::borrow::Cow;
use vstd::prelude::*;
use vstd::string::StringSliceAdditionalSpecFns;

verus! {

/// A language of the interface.
#[derive(Clone, Copy, Debug, PartialEq, Eq, Structural)]
pub enum Language {
    English,
    SimplifiedChinese,
}

/// The language that the settings ask for.
#[derive(Clone, Copy, Debug, PartialEq, Eq, Structural)]
pub enum UiLanguagePreference {
    /// Follow the system.
    Auto,
    SimplifiedChinese,
    English,
}

/// The language that a preference selects: English where it is asked for,
/// Simplified Chinese otherwise, also where nothing is set.
pub open spec fn preferred_language(preference: Option<UiLanguagePreference>) -> Language {
    match preference {
        Some(UiLanguagePreference::English) => Language::English,
        _ => Language::SimplifiedChinese,
    }
}

/// The settings of the interface language.
#[derive(Clone, Copy, Debug)]
pub struct LocalizationSettings {
    language: Language,
}

impl View for LocalizationSettings {
    type V = Language;

    closed spec fn view(&self) -> Language {
        self.language
    }
}

impl LocalizationSettings {
    /// The language of the interface.
    pub fn language(&self) -> (language: Language)
        ensures
            language == self@,
    {
        self.language
    }

    /// Reads the settings from the preference in the settings file.
    pub fn from_settings(preference: Option<UiLanguagePreference>) -> (settings:
        LocalizationSettings)
        ensures
            settings@ == preferred_language(preference),
    {
        let preference = match preference {
            Some(preference) => preference,
            None => UiLanguagePreference::SimplifiedChinese,
        };
        let language = match preference {
            UiLanguagePreference::SimplifiedChinese | UiLanguagePreference::Auto => {
                Language::SimplifiedChinese
            },
            UiLanguagePreference::English => Language::English,
        };
        LocalizationSettings { language }
    }
}

/// Whether two texts are the same, character by character.
pub fn str_eq(a: &str, b: &str) -> (same: bool)
    ensures
        same == (a@ == b@),
{
    let x = a.as_bytes();
    let y = b.as_bytes();
    if x.len() != y.len() {
        return false;
    }
    let mut i: usize = 0;
    while i < x.len()
        invariant
            x@ == a.spec_bytes(),
            y@ == b.spec_bytes(),
            x@.len() == y@.len(),
            i <= x@.len(),
            forall|j: int| 0 <= j < i ==> x@[j] == y@[j],
        decreases x@.len() - i,
    {
        if x[i] != y[i] {
            return false;
        }
        i += 1;
    }
    proof {
        assert(x@ =~= y@);
        vstd::utf8::encode_utf8_decode_utf8(a@);
        vstd::utf8::encode_utf8_decode_utf8(b@);
    }
    true
}

/// The map that a list of entries builds when they are inserted in order: of
/// two entries with one key, the later one stays.
pub open spec fn entries_map(entries: Seq<(&'static str, &'static str)>) -> Map<
    Seq<char>,
    Seq<char>,
>
    decreases entries.len(),
{
    if entries.len() == 0 {
        Map::empty()
    } else {
        entries_map(entries.drop_last()).insert(entries.last().0@, entries.last().1@)
    }
}

/// A key of the map is the key of some entry, and has the wording of the last
/// entry with that key.
pub proof fn lemma_entries_map_lookup(entries: Seq<(&'static str, &'static str)>, key: Seq<char>)
    ensures
        entries_map(entries).contains_key(key) <==> exists|i: int|
            0 <= i < entries.len() && (#[trigger] entries[i]).0@ == key,
        forall|i: int|
            0 <= i < entries.len() && (#[trigger] entries[i]).0@ == key && (forall|j: int|
                i < j < entries.len() ==> (#[trigger] entries[j]).0@ != key) ==> entries_map(
                entries,
            )[key] == entries[i].1@,
    decreases entries.len(),
{
    if entries.len() > 0 {
        let rest = entries.drop_last();
        lemma_entries_map_lookup(rest, key);
        if entries.last().0@ == key {
            assert(entries[entries.len() - 1].0@ == key);
        } else {
            if entries_map(entries).contains_key(key) {
                let i = choose|i: int| 0 <= i < rest.len() && (#[trigger] rest[i]).0@ == key;
                assert(entries[i] == rest[i]);
            }
            if exists|i: int| 0 <= i < entries.len() && (#[trigger] entries[i]).0@ == key {
                let i = choose|i: int| 0 <= i < entries.len() && (#[trigger] entries[i]).0@ == key;
                assert(rest[i] == entries[i]);
            }
        }
        assert forall|i: int|
            0 <= i < entries.len() && (#[trigger] entries[i]).0@ == key && (forall|j: int|
                i < j < entries.len() ==> (#[trigger] entries[j]).0@ != key) implies entries_map(
            entries,
        )[key] == entries[i].1@ by {
            if i < rest.len() {
                assert(rest[i] == entries[i]);
                assert(entries[entries.len() - 1].0@ != key);
                assert forall|j: int| i < j < rest.len() implies (#[trigger] rest[j]).0@ != key by {
                    assert(rest[j] == entries[j]);
                }
            }
        }
    }
}

/// A map from keys to wordings.
#[derive(Debug)]
pub struct TranslationMap {
    entries: Vec<(&'static str, &'static str)>,
}

impl View for TranslationMap {
    type V = Map<Seq<char>, Seq<char>>;

    closed spec fn view(&self) -> Map<Seq<char>, Seq<char>> {
        entries_map(self.entries@)
    }
}

impl TranslationMap {
    /// An empty map.
    pub fn new() -> (map: TranslationMap)
        ensures
            map@ == Map::<Seq<char>, Seq<char>>::empty(),
    {
        TranslationMap { entries: Vec::new() }
    }

    /// Sets the wording of a key, in place of an earlier one if there is any.
    pub fn insert(&mut self, key: &'static str, value: &'static str)
        ensures
            final(self)@ == old(self)@.insert(key@, value@),
    {
        self.entries.push((key, value));
        assert(self.entries@.drop_last() =~= old(self).entries@);
    }

    /// The wording of a key, if the map has one.
    pub fn get(&self, key: &str) -> (value: Option<&'static str>)
        ensures
            match value {
                Some(wording) => self@.contains_key(key@) && self@[key@] == wording@,
                None => !self@.contains_key(key@),
            },
    {
        let mut i: usize = self.entries.len();
        while i > 0
            invariant
                i <= self.entries@.len(),
                forall|j: int|
                    i <= j < self.entries@.len() ==> (#[trigger] self.entries@[j]).0@ != key@,
            decreases i,
        {
            i -= 1;
            if str_eq(self.entries[i].0, key) {
                proof {
                    lemma_entries_map_lookup(self.entries@, key@);
                    assert(self.entries@[i as int].0@ == key@);
                }
                return Some(self.entries[i].1);
            }
        }
        proof {
            lemma_entries_map_lookup(self.entries@, key@);
        }
        None
    }
}

/// The Simplified Chinese wording of every key that has one.
pub open spec fn zh_cn_map() -> Map<Seq<char>, Seq<char>> {
    entries_map(ZH_CN_ENTRIES@)
}

/// Builds the map of the Simplified Chinese wordings.
pub fn zh_cn_translations() -> (map: TranslationMap)
    ensures
        map@ == zh_cn_map(),
{
    let mut map = TranslationMap { entries: Vec::with_capacity(ZH_CN_ENTRY_COUNT) };
    let mut i: usize = 0;
    while i < ZH_CN_ENTRY_COUNT
        invariant
            i <= ZH_CN_ENTRY_COUNT,
            ZH_CN_ENTRY_COUNT == ZH_CN_ENTRIES@.len(),
            map@ == entries_map(ZH_CN_ENTRIES@.take(i as int)),
        decreases ZH_CN_ENTRY_COUNT - i,
    {
        let entry = ZH_CN_ENTRIES[i];
        map.insert(entry.0, entry.1);
        proof {
            let next = ZH_CN_ENTRIES@.take(i + 1);
            assert(next.drop_last() =~= ZH_CN_ENTRIES@.take(i as int));
            assert(next.last() == ZH_CN_ENTRIES@[i as int]);
        }
        i += 1;
    }
    assert(ZH_CN_ENTRIES@.take(i as int) =~= ZH_CN_ENTRIES@);
    map
}

/// The text shown for a key: in English the default text; in Simplified
/// Chinese the wording of the key, and the default text for a key without one.
pub open spec fn translation(language: Language, key: Seq<char>, default: Seq<char>) -> Seq<char> {
    match language {
        Language::English => default,
        Language::SimplifiedChinese => if zh_cn_map().contains_key(key) {
            zh_cn_map()[key]
        } else {
            default
        },
    }
}

/// The language that the interface is shown in, with the wordings to look
/// texts up in. Its view is the language.
#[derive(Debug)]
pub struct Localization {
    language: Language,
    zh_cn: TranslationMap,
}

impl View for Localization {
    type V = Language;

    closed spec fn view(&self) -> Language {
        self.language
    }
}

impl Localization {
    #[verifier::type_invariant]
    spec fn holds_the_wordings(&self) -> bool {
        self.zh_cn@ == zh_cn_map()
    }

    /// The interface as it starts: in Simplified Chinese.
    pub fn new() -> (state: Localization)
        ensures
            state@ == Language::SimplifiedChinese,
    {
        Localization { language: Language::SimplifiedChinese, zh_cn: zh_cn_translations() }
    }
}

impl Default for Localization {
    fn default() -> (state: Localization)
        ensures
            state@ == Language::SimplifiedChinese,
    {
        Localization::new()
    }
}

/// The text for a key, borrowed: the default text in English, the Simplified
/// Chinese wording otherwise, and the default text for a key without one.
pub fn translate_static(state: &Localization, key: &str, default: &'static str) -> (text: Cow<
    'static,
    str,
>)
    ensures
        text@ == translation(state@, key@, default@),
        text is Borrowed,
{
    proof {
        use_type_invariant(state);
    }
    match state.language {
        Language::English => Cow::Borrowed(default),
        Language::SimplifiedChinese => match state.zh_cn.get(key) {
            Some(wording) => Cow::Borrowed(wording),
            None => Cow::Borrowed(default),
        },
    }
}

/// The text for a key, owned: the default text in English, the Simplified
/// Chinese wording otherwise, and the default text for a key without one.
pub fn translate_owned(state: &Localization, key: &str, default: &str) -> (text: String)
    ensures
        text@ == translation(state@, key@, default@),
{
    proof {
        use_type_invariant(state);
    }
    match state.language {
        Language::English => String::from_str(default),
        Language::SimplifiedChinese => match state.zh_cn.get(key) {
            Some(wording) => String::from_str(wording),
            None => String::from_str(default),
        },
    }
}

/// Sets the language that texts are shown in.
pub fn set_language(state: &mut Localization, language: Language)
    ensures
        final(state)@ == language,
{
    proof {
        use_type_invariant(&*state);
    }
    state.language = language;
}

/// The language that texts are shown in.
pub fn current_language(state: &Localization) -> (language: Language)
    ensures
        language == state@,
{
    state.language
}

/// Makes the language of the settings the language of the interface.
pub fn apply_settings(state: &mut Localization, settings: &LocalizationSettings)
    ensures
        final(state)@ == settings@,
{
    set_language(state, settings.language());
}

/// Reads the preference of the settings file and makes its language the
/// language of the interface. The caller repeats this whenever the settings
/// change.
pub fn init(state: &mut Localization, preference: Option<UiLanguagePreference>)
    ensures
        final(state)@ == preferred_language(preference),
{
    let settings = LocalizationSettings::from_settings(preference);
    apply_settings(state, &settings);
}

} // verus!
