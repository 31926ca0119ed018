//! Localized UI strings.
//!
//! TontooOS libraries ship an English (`en_us`) and a German (`de_de`)
//! language table. The active language is chosen from the locale (the
//! `LANG` variable, else `LC_ALL`) and falls back to English. A loaded
//! table is a [`LangTable`] of its string entries, looked up with [`t`] and
//! [`t_or`].

use vstd::prelude::*;
use vstd::string::*;

verus! {

/// Whether two strings hold the same text.
pub fn str_equals(a: &str, b: &str) -> (r: bool)
    ensures
        r == (a@ == b@),
{
    let n = a.unicode_len();
    let m = b.unicode_len();
    if n != m {
        return false;
    }
    let mut i: usize = 0;
    while i < n
        invariant
            n == a@.len(),
            m == b@.len(),
            n == m,
            i <= n,
            forall|j: int| 0 <= j < i ==> a@[j] == b@[j],
        decreases n - i,
    {
        if a.get_char(i) != b.get_char(i) {
            return false;
        }
        i = i + 1;
    }
    assert(a@ =~= b@);
    true
}

/// Whether a locale names German: ignoring case, it starts with `de`.
pub open spec fn locale_is_german(locale: Seq<char>) -> bool {
    &&& locale.len() >= 2
    &&& (locale[0] == 'd' || locale[0] == 'D')
    &&& (locale[1] == 'e' || locale[1] == 'E')
}

/// The language code for a locale string: `"de_de"` when the locale,
/// lower-cased, starts with `de`, and `"en_us"` otherwise.
///
/// Only `D`/`d` lower-case to a character starting with `d`, and only
/// `E`/`e` to one starting with `e`, so the test is made on the first two
/// characters directly.
pub fn current_language(locale: &str) -> (r: &'static str)
    ensures
        r@ == (if locale_is_german(locale@) {
            "de_de"@
        } else {
            "en_us"@
        }),
{
    let n = locale.unicode_len();
    if n >= 2 {
        let c0 = locale.get_char(0);
        let c1 = locale.get_char(1);
        if (c0 == 'd' || c0 == 'D') && (c1 == 'e' || c1 == 'E') {
            return "de_de";
        }
    }
    "en_us"
}

/// German is chosen by the first two characters of the locale alone:
/// a locale is German exactly when its first character is `d` or `D` and
/// its second is `e` or `E`, whatever follows. So `da_DK` or `dz_BT` is
/// not German, and `de`, `DE_at` or `de_CH.UTF-8` is.
pub proof fn lemma_german_locales(locale: Seq<char>, rest: Seq<char>)
    ensures
        locale_is_german(locale) ==> locale.len() >= 2 && (locale[0] == 'd' || locale[0] == 'D')
            && (locale[1] == 'e' || locale[1] == 'E'),
        locale.len() >= 2 && locale[1] != 'e' && locale[1] != 'E' ==> !locale_is_german(locale),
        locale.len() < 2 ==> !locale_is_german(locale),
        locale_is_german(seq!['d', 'e'] + rest),
        locale_is_german(seq!['D', 'E'] + rest),
        locale_is_german(seq!['d', 'E'] + rest),
        locale_is_german(seq!['D', 'e'] + rest),
        locale.len() >= 2 ==> locale_is_german(locale) == locale_is_german(locale.take(2) + rest),
{
    assert((seq!['d', 'e'] + rest)[1] == 'e');
    assert((seq!['D', 'E'] + rest)[1] == 'E');
    assert((seq!['d', 'E'] + rest)[1] == 'E');
    assert((seq!['D', 'e'] + rest)[1] == 'e');
    if locale.len() >= 2 {
        assert((locale.take(2) + rest)[0] == locale[0]);
        assert((locale.take(2) + rest)[1] == locale[1]);
    }
}

/// The locale to read the language from: `LANG` when it is set, else
/// `LC_ALL`, else empty.
pub fn locale_from_env(lang: Option<String>, lc_all: Option<String>) -> (r: String)
    ensures
        r@ == (match lang {
            Some(l) => l@,
            None => match lc_all {
                Some(c) => c@,
                None => Seq::empty(),
            },
        }),
{
    match lang {
        Some(l) => l,
        None => match lc_all {
            Some(c) => c,
            None => String::new(),
        },
    }
}

/// The bundled language tables.
#[derive(Debug, Clone, Copy, PartialEq, Eq, Structural)]
pub enum Language {
    EnUs,
    DeDe,
}

pub open spec fn spec_language_for(code: Seq<char>) -> Language {
    if code == "de"@ || code == "de_de"@ || code == "de-DE"@ {
        Language::DeDe
    } else {
        Language::EnUs
    }
}

/// The table loaded for a language code: German for `de`, `de_de` and
/// `de-DE`, English for every other code.
pub fn language_for(code: &str) -> (r: Language)
    ensures
        r == spec_language_for(code@),
{
    if str_equals(code, "de") || str_equals(code, "de_de") || str_equals(code, "de-DE") {
        Language::DeDe
    } else {
        Language::EnUs
    }
}

/// The language code a locale selects loads the matching table: a German
/// locale's code loads the German table and every other locale's code the
/// English one. Only codes that start with `de` load the German table.
pub proof fn lemma_locale_selects_table(locale: Seq<char>, code: Seq<char>)
    ensures
        spec_language_for(if locale_is_german(locale) { "de_de"@ } else { "en_us"@ }) == (if locale_is_german(locale) {
            Language::DeDe
        } else {
            Language::EnUs
        }),
        spec_language_for(code) == Language::DeDe ==> code.len() >= 2 && code[0] == 'd' && code[1] == 'e',
{
    reveal_strlit("de");
    reveal_strlit("de_de");
    reveal_strlit("de-DE");
    reveal_strlit("en_us");
    assert("en_us"@.len() != "de"@.len());
    assert("en_us"@[1] != "de_de"@[1]);
    assert("en_us"@.len() != "de-DE"@.len() || "en_us"@[1] != "de-DE"@[1]);
}

/// The string entries of a language table, each key once.
pub struct LangTable {
    entries: Vec<(String, String)>,
}

impl LangTable {
    #[verifier::type_invariant]
    closed spec fn keys_distinct(&self) -> bool {
        forall|i: int, j: int|
            0 <= i < self.entries@.len() && 0 <= j < self.entries@.len() && i != j
                ==> #[trigger] self.entries@[i].0@ != #[trigger] self.entries@[j].0@
    }

    closed spec fn has_key_at(&self, i: int, key: Seq<char>) -> bool {
        0 <= i < self.entries@.len() && self.entries@[i].0@ == key
    }
}

impl View for LangTable {
    type V = Map<Seq<char>, Seq<char>>;

    closed spec fn view(&self) -> Map<Seq<char>, Seq<char>> {
        Map::new(
            |k: Seq<char>| exists|i: int| self.has_key_at(i, k),
            |k: Seq<char>| self.entries@[choose|i: int| self.has_key_at(i, k)].1@,
        )
    }
}

impl LangTable {
    /// An empty table.
    pub fn new() -> (r: Self)
        ensures
            r@ == Map::<Seq<char>, Seq<char>>::empty(),
    {
        let r = LangTable { entries: Vec::new() };
        assert(r@ =~= Map::<Seq<char>, Seq<char>>::empty());
        r
    }

    fn find(&self, key: &str) -> (r: Option<usize>)
        ensures
            r matches Some(i) ==> self.has_key_at(i as int, key@),
            r is None ==> forall|i: int| !self.has_key_at(i, key@),
    {
        let mut i: usize = 0;
        while i < self.entries.len()
            invariant
                i <= self.entries@.len(),
                forall|j: int| 0 <= j < i ==> !self.has_key_at(j, key@),
            decreases self.entries@.len() - i,
        {
            if str_equals(self.entries[i].0.as_str(), key) {
                return Some(i);
            }
            i = i + 1;
        }
        None
    }

    proof fn lemma_lookup_at(&self, i: int, key: Seq<char>)
        requires
            self.keys_distinct(),
            self.has_key_at(i, key),
        ensures
            self@.contains_key(key),
            self@[key] == self.entries@[i].1@,
    {
        let j = choose|j: int| self.has_key_at(j, key);
        assert(self.has_key_at(j, key));
        if j != i {
            assert(self.entries@[i].0@ != self.entries@[j].0@);
        }
    }

    /// Set the entry for `key` to `value`, replacing an existing one.
    pub fn insert(&mut self, key: String, value: String)
        ensures
            final(self)@ == old(self)@.insert(key@, value@),
    {
        proof {
            use_type_invariant(&*self);
        }
        assert(old(self).keys_distinct());
        let ghost old_entries = self.entries@;
        let ghost kv = key@;
        let ghost vv = value@;
        let found = self.find(key.as_str());
        let ghost pos: int = match found {
            Some(i) => i as int,
            None => old_entries.len() as int,
        };
        let mut entries: Vec<(String, String)> = Vec::new();
        std::mem::swap(&mut entries, &mut self.entries);
        match found {
            Some(i) => {
                entries.set(i, (key, value));
                proof {
                    assert forall|a: int, b: int|
                        0 <= a < entries@.len() && 0 <= b < entries@.len() && a != b
                            implies #[trigger] entries@[a].0@
                        != #[trigger] entries@[b].0@ by {
                        assert(old_entries[a].0@ != old_entries[b].0@);
                        assert(old_entries[i as int].0@ == kv);
                    }
                }
            },
            None => {
                entries.push((key, value));
                proof {
                    assert forall|a: int, b: int|
                        0 <= a < entries@.len() && 0 <= b < entries@.len() && a != b
                            implies #[trigger] entries@[a].0@
                        != #[trigger] entries@[b].0@ by {
                        if a < old_entries.len() && b < old_entries.len() {
                            assert(old_entries[a].0@ != old_entries[b].0@);
                        } else if a < old_entries.len() {
                            assert(!old(self).has_key_at(a, kv));
                            assert(old_entries[a] == entries@[a]);
                        } else {
                            assert(!old(self).has_key_at(b, kv));
                            assert(old_entries[b] == entries@[b]);
                        }
                    }
                }
            },
        }
        self.entries = entries;
        proof {
            use_type_invariant(&*self);
            let m = self@;
            let e = old(self)@.insert(kv, vv);
            assert forall|k: Seq<char>| #[trigger] m.contains_key(k) <==> e.contains_key(k) by {
                if m.contains_key(k) {
                    let j = choose|j: int| self.has_key_at(j, k);
                    if k != kv {
                        assert(old(self).has_key_at(j, k));
                    }
                }
                if e.contains_key(k) && k != kv {
                    let j = choose|j: int| old(self).has_key_at(j, k);
                    assert(self.has_key_at(j, k));
                }
                if k == kv {
                    let j = if self.entries@.len() == old_entries.len() {
                        choose|j: int| old(self).has_key_at(j, kv)
                    } else {
                        old_entries.len() as int
                    };
                    assert(self.has_key_at(j, kv));
                }
            }
            assert(self.has_key_at(pos, kv));
            assert forall|k: Seq<char>| #[trigger] m.contains_key(k) implies m[k] == e[k] by {
                if k == kv {
                    self.lemma_lookup_at(pos, kv);
                } else {
                    let j = choose|j: int| self.has_key_at(j, k);
                    self.lemma_lookup_at(j, k);
                    assert(j != pos);
                    assert(self.entries@[j] == old_entries[j]);
                    assert(old(self).has_key_at(j, k));
                    old(self).lemma_lookup_at(j, k);
                }
            }
            assert(m =~= e);
        }
    }

    /// The value stored for `key`, if any.
    pub fn get(&self, key: &str) -> (r: Option<String>)
        ensures
            r is Some <==> self@.contains_key(key@),
            r matches Some(v) ==> v@ == self@[key@],
    {
        proof {
            use_type_invariant(self);
        }
        match self.find(key) {
            Some(i) => {
                proof {
                    self.lemma_lookup_at(i as int, key@);
                }
                Some(self.entries[i].1.clone())
            },
            None => None,
        }
    }
}

/// What `serde_json` reads from a language file's text: `None` when the
/// text is not a JSON object, otherwise the object's entries, each key with
/// its value when that value is a JSON string and `None` for any other
/// value.
pub uninterp spec fn json_string_entries(text: Seq<char>) -> Option<Seq<(Seq<char>, Option<Seq<char>>)>>;

/// The text of an entry read from a language file.
pub open spec fn entry_view(e: (String, Option<String>)) -> (Seq<char>, Option<Seq<char>>) {
    (
        e.0@,
        match e.1 {
            Some(s) => Some(s@),
            None => None,
        },
    )
}

/// The texts of the entries read from a language file.
pub open spec fn entries_view(v: Seq<(String, Option<String>)>) -> Seq<(Seq<char>, Option<Seq<char>>)> {
    v.map_values(|e: (String, Option<String>)| entry_view(e))
}

/// Parse a language file's text with `serde_json::from_str` into a JSON
/// value. Text that does not parse, or a value that is not an object,
/// gives `None`; an object gives its entries in the map's order, each
/// value as its text when it is a JSON string and `None` otherwise. Only
/// that the result is the one `json_string_entries` names for the text is
/// claimed; what `serde_json` accepts as JSON is not restated here.
#[verifier::external_body]
fn parse_json_string_entries(text: &str) -> (r: Option<Vec<(String, Option<String>)>>)
    ensures
        match r {
            None => json_string_entries(text@) is None,
            Some(v) => json_string_entries(text@) == Some(entries_view(v@)),
        },
{
    match serde_json::from_str::<serde_json::Value>(text) {
        Ok(serde_json::Value::Object(map)) => Some(
            map.into_iter().map(|(k, v)| (k, v.as_str().map(String::from))).collect(),
        ),
        _ => None,
    }
}

/// The table made of a file's entries, taken in order: a string value is
/// stored under its key, any other value is left out.
pub open spec fn string_entries_map(es: Seq<(Seq<char>, Option<Seq<char>>)>) -> Map<
    Seq<char>,
    Seq<char>,
>
    decreases es.len(),
{
    if es.len() == 0 {
        Map::empty()
    } else {
        let rest = string_entries_map(es.drop_last());
        match es.last().1 {
            Some(v) => rest.insert(es.last().0, v),
            None => rest,
        }
    }
}

/// The string table made of entries read from a language file, taken in
/// order: a string value is stored under its key (a later entry for the
/// same key wins), and an entry with any other value is left out.
pub fn table_from_entries(entries: Vec<(String, Option<String>)>) -> (r: LangTable)
    ensures
        r@ == string_entries_map(entries_view(entries@)),
{
    let mut table = LangTable::new();
    let ghost es = entries_view(entries@);
    let mut i: usize = 0;
    while i < entries.len()
        invariant
            i <= entries@.len(),
            es == entries_view(entries@),
            table@ == string_entries_map(es.take(i as int)),
        decreases entries@.len() - i,
    {
        assert(es.take(i + 1).drop_last() =~= es.take(i as int));
        let (key, value) = &entries[i];
        match value {
            Some(v) => {
                table.insert(key.clone(), v.clone());
            },
            None => {},
        }
        i = i + 1;
    }
    assert(es.take(entries@.len() as int) =~= es);
    table
}

/// The string table of a language file's text. Text that is not a JSON
/// object gives the empty table; in an object, every key whose value is a
/// string is kept, and keys with any other value give no string.
pub fn load_table(text: &str) -> (r: LangTable)
    ensures
        r@ == match json_string_entries(text@) {
            None => Map::empty(),
            Some(es) => string_entries_map(es),
        },
{
    match parse_json_string_entries(text) {
        None => LangTable::new(),
        Some(entries) => table_from_entries(entries),
    }
}

/// Look up a localized string by key.
pub fn t(table: &LangTable, key: &str) -> (r: Option<String>)
    ensures
        r is Some <==> table@.contains_key(key@),
        r matches Some(v) ==> v@ == table@[key@],
{
    table.get(key)
}

/// Look up a localized string by key, with a fallback for missing keys.
pub fn t_or(table: &LangTable, key: &str, fallback: &str) -> (r: String)
    ensures
        r@ == (if table@.contains_key(key@) {
            table@[key@]
        } else {
            fallback@
        }),
{
    match t(table, key) {
        Some(v) => v,
        None => fallback.to_owned(),
    }
}

} // verus!
