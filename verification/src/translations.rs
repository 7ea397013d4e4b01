use vstd::prelude::*;

use crate::text::str_equals;

verus! {

/// The translations of one culture: pairs of a key and its translated text,
/// each key in one pair only (see `wf`).
pub struct TranslationTable {
    pub culture: String,
    pub translations: Vec<(String, String)>,
}

/// A table as plain text: its culture and its key/text pairs.
pub type TableView = (Seq<char>, Seq<(Seq<char>, Seq<char>)>);

pub open spec fn entries_view(entries: Seq<(String, String)>) -> Seq<(Seq<char>, Seq<char>)> {
    entries.map_values(|e: (String, String)| (e.0@, e.1@))
}

impl View for TranslationTable {
    type V = TableView;

    open spec fn view(&self) -> TableView {
        (self.culture@, entries_view(self.translations@))
    }
}

/// No key occurs in two pairs.
pub open spec fn keys_distinct(entries: Seq<(Seq<char>, Seq<char>)>) -> bool {
    forall|i: int, j: int| 0 <= i < j < entries.len() ==> #[trigger] entries[i].0 != #[trigger] entries[j].0
}

impl TranslationTable {
    /// A table maps keys to texts: each key occurs in one pair only.
    pub open spec fn wf(&self) -> bool {
        keys_distinct(self@.1)
    }
}

/// Whether a key occurs among the pairs.
pub open spec fn has_key(entries: Seq<(Seq<char>, Seq<char>)>, key: Seq<char>) -> bool {
    exists|i: int| 0 <= i < entries.len() && #[trigger] entries[i].0 == key
}

/// Position of the first pair with the key.
pub open spec fn first_key_index(entries: Seq<(Seq<char>, Seq<char>)>, key: Seq<char>) -> int {
    choose|i: int|
        0 <= i < entries.len() && entries[i].0 == key && forall|j: int|
            0 <= j < i ==> #[trigger] entries[j].0 != key
}

/// The text stored for a key: that of its first pair.
pub open spec fn lookup(entries: Seq<(Seq<char>, Seq<char>)>, key: Seq<char>) -> Seq<char> {
    entries[first_key_index(entries, key)].1
}

/// Whether some table is for the culture.
pub open spec fn has_culture(tables: Seq<TableView>, culture: Seq<char>) -> bool {
    exists|i: int| 0 <= i < tables.len() && #[trigger] tables[i].0 == culture
}

/// Position of the first table for the culture.
pub open spec fn first_culture_index(tables: Seq<TableView>, culture: Seq<char>) -> int {
    choose|i: int|
        0 <= i < tables.len() && tables[i].0 == culture && forall|j: int|
            0 <= j < i ==> #[trigger] tables[j].0 != culture
}

/// The culture whose table answers: the one asked for if some table has it,
/// English otherwise.
pub open spec fn resolved_culture(tables: Seq<TableView>, culture: Seq<char>) -> Seq<char> {
    if has_culture(tables, culture) {
        culture
    } else {
        "en"@
    }
}

/// Whether a translation is found: the first table of the resolved culture
/// exists and holds the key.
pub open spec fn can_translate(tables: Seq<TableView>, culture: Seq<char>, key: Seq<char>) -> bool {
    let c = resolved_culture(tables, culture);
    has_culture(tables, c) && has_key(tables[first_culture_index(tables, c)].1, key)
}

/// The translation: the key's text in the first table of the resolved culture.
pub open spec fn translation(tables: Seq<TableView>, culture: Seq<char>, key: Seq<char>) -> Seq<
    char,
> {
    let c = resolved_culture(tables, culture);
    lookup(tables[first_culture_index(tables, c)].1, key)
}

/// The translation tables of the application, searched in the order they were added.
pub struct Translations {
    tables: Vec<TranslationTable>,
}

impl View for Translations {
    type V = Seq<TableView>;

    closed spec fn view(&self) -> Seq<TableView> {
        self.tables@.map_values(|t: TranslationTable| t@)
    }
}

impl Translations {
    /// Every table maps each of its keys to one text.
    #[verifier::type_invariant]
    spec fn tables_wf(&self) -> bool {
        forall|i: int| 0 <= i < self.tables@.len() ==> #[trigger] self.tables@[i].wf()
    }
}

impl Default for Translations {
    fn default() -> (t: Self)
        ensures
            t@ == Seq::<TableView>::empty(),
    {
        let t = Translations { tables: Vec::new() };
        assert(t@ =~= Seq::<TableView>::empty());
        t
    }
}

impl Translations {
    /// Appends a table; it is searched after all earlier ones.
    pub fn add_translation_table(&mut self, table: TranslationTable)
        requires
            table.wf(),
        ensures
            final(self)@ == old(self)@.push(table@),
    {
        proof {
            use_type_invariant(&*self);
        }
        let mut tables = Vec::new();
        std::mem::swap(&mut tables, &mut self.tables);
        tables.push(table);
        self.tables = tables;
        assert(self@ =~= old(self)@.push(table@));
    }

    fn find_culture(&self, culture: &str) -> (r: Option<usize>)
        ensures
            match r {
                Some(i) => has_culture(self@, culture@) && i == first_culture_index(self@, culture@)
                    && i < self@.len(),
                None => !has_culture(self@, culture@),
            },
    {
        let n = self.tables.len();
        for i in 0..n
            invariant
                n == self.tables@.len(),
                n == self@.len(),
                forall|j: int| 0 <= j < i ==> #[trigger] self@[j].0 != culture@,
        {
            if str_equals(self.tables[i].culture.as_str(), culture) {
                proof {
                    assert(self@[i as int].0 == culture@);
                    let k = first_culture_index(self@, culture@);
                    assert(has_culture(self@, culture@));
                    if k < i {
                        assert(self@[k].0 != culture@);
                    } else if k > i {
                        assert(self@[i as int].0 != culture@);
                    }
                }
                return Some(i);
            }
        }
        None
    }

    fn find_key(table: &TranslationTable, key: &str) -> (r: Option<usize>)
        ensures
            match r {
                Some(j) => has_key(table@.1, key@) && j == first_key_index(table@.1, key@) && j
                    < table@.1.len(),
                None => !has_key(table@.1, key@),
            },
    {
        let n = table.translations.len();
        for j in 0..n
            invariant
                n == table.translations@.len(),
                n == table@.1.len(),
                forall|k: int| 0 <= k < j ==> #[trigger] table@.1[k].0 != key@,
        {
            if str_equals(table.translations[j].0.as_str(), key) {
                proof {
                    assert(table@.1[j as int].0 == key@);
                    let k = first_key_index(table@.1, key@);
                    assert(has_key(table@.1, key@));
                    if k < j {
                        assert(table@.1[k].0 != key@);
                    } else if k > j {
                        assert(table@.1[j as int].0 != key@);
                    }
                }
                return Some(j);
            }
        }
        None
    }

    /// The text for a key as `translate` finds it, or `None` where
    /// `translate` could not answer (no table for the culture or for English,
    /// or the key missing from the table that answers).
    pub fn try_translate(&self, culture: &str, key: &str) -> (text: Option<&str>)
        ensures
            text is Some <==> can_translate(self@, culture@, key@),
            text matches Some(t) ==> t@ == translation(self@, culture@, key@),
    {
        let index = match self.find_culture(culture) {
            Some(i) => i,
            None => match self.find_culture("en") {
                Some(i) => i,
                None => {
                    return None;
                },
            },
        };
        let table = &self.tables[index];
        match Self::find_key(table, key) {
            Some(j) => Some(table.translations[j].1.as_str()),
            None => None,
        }
    }

    /// The text for a key in the first table of the culture, or, where no
    /// table has the culture, in the first English table.
    pub fn translate(&self, culture: &str, key: &str) -> (text: &str)
        requires
            can_translate(self@, culture@, key@),
        ensures
            text@ == translation(self@, culture@, key@),
        decreases
                (if culture@ == "en"@ {
                    0int
                } else {
                    1int
                }),
    {
        match self.find_culture(culture) {
            Some(i) => {
                let table = &self.tables[i];
                match Self::find_key(table, key) {
                    Some(j) => table.translations[j].1.as_str(),
                    None => {
                        assert(false);
                        ""
                    },
                }
            },
            None => self.translate("en", key),
        }
    }
}

proof fn lemma_first_culture_from(tables: Seq<TableView>, culture: Seq<char>, w: int)
    requires
        0 <= w < tables.len(),
        tables[w].0 == culture,
    ensures
        exists|i: int|
            0 <= i < tables.len() && tables[i].0 == culture && forall|j: int|
                0 <= j < i ==> #[trigger] tables[j].0 != culture,
    decreases w,
{
    if exists|j: int| 0 <= j < w && #[trigger] tables[j].0 == culture {
        let j = choose|j: int| 0 <= j < w && #[trigger] tables[j].0 == culture;
        lemma_first_culture_from(tables, culture, j);
    } else {
        assert(forall|j: int| 0 <= j < w ==> #[trigger] tables[j].0 != culture);
    }
}

/// The first table of a culture that some table has is a table of that culture
/// before which no table has it.
pub proof fn lemma_first_culture(tables: Seq<TableView>, culture: Seq<char>)
    requires
        has_culture(tables, culture),
    ensures
        0 <= first_culture_index(tables, culture) < tables.len(),
        tables[first_culture_index(tables, culture)].0 == culture,
        forall|j: int|
            0 <= j < first_culture_index(tables, culture) ==> #[trigger] tables[j].0 != culture,
{
    let w = choose|i: int| 0 <= i < tables.len() && #[trigger] tables[i].0 == culture;
    lemma_first_culture_from(tables, culture, w);
}

proof fn lemma_first_key_from(entries: Seq<(Seq<char>, Seq<char>)>, key: Seq<char>, w: int)
    requires
        0 <= w < entries.len(),
        entries[w].0 == key,
    ensures
        exists|i: int|
            0 <= i < entries.len() && entries[i].0 == key && forall|j: int|
                0 <= j < i ==> #[trigger] entries[j].0 != key,
    decreases w,
{
    if exists|j: int| 0 <= j < w && #[trigger] entries[j].0 == key {
        let j = choose|j: int| 0 <= j < w && #[trigger] entries[j].0 == key;
        lemma_first_key_from(entries, key, j);
    } else {
        assert(forall|j: int| 0 <= j < w ==> #[trigger] entries[j].0 != key);
    }
}

/// A key is found exactly where some pair holds that very key, and the text
/// read for it is the text of a pair whose key equals it; in a table whose
/// keys are distinct, the text paired with the key.
pub proof fn lemma_lookup_is_paired_text(entries: Seq<(Seq<char>, Seq<char>)>, key: Seq<char>, i: int)
    requires
        0 <= i < entries.len(),
        entries[i].0 == key,
    ensures
        has_key(entries, key),
        entries[first_key_index(entries, key)].0 == key,
        keys_distinct(entries) ==> lookup(entries, key) == entries[i].1,
{
    lemma_first_key_from(entries, key, i);
    let k = first_key_index(entries, key);
    if keys_distinct(entries) && k != i {
        if k < i {
            assert(entries[k].0 != entries[i].0);
        } else {
            assert(entries[i].0 != entries[k].0);
        }
    }
}

/// A key that no pair holds is not found.
pub proof fn lemma_missing_key(entries: Seq<(Seq<char>, Seq<char>)>, key: Seq<char>)
    requires
        forall|i: int| 0 <= i < entries.len() ==> entries[i].0 != key,
    ensures
        !has_key(entries, key),
{
}

/// The translation of a key for a culture that a table has is the text
/// paired with that very key in the culture's first table.
pub proof fn lemma_translation_is_paired_text(
    tables: Seq<TableView>,
    culture: Seq<char>,
    key: Seq<char>,
    t: int,
    i: int,
)
    requires
        0 <= t < tables.len(),
        tables[t].0 == culture,
        forall|j: int| 0 <= j < t ==> #[trigger] tables[j].0 != culture,
        keys_distinct(tables[t].1),
        0 <= i < tables[t].1.len(),
        tables[t].1[i].0 == key,
    ensures
        can_translate(tables, culture, key),
        translation(tables, culture, key) == tables[t].1[i].1,
{
    assert(has_culture(tables, culture));
    lemma_first_culture(tables, culture);
    let k = first_culture_index(tables, culture);
    if k < t {
        assert(tables[k].0 == culture);
    } else if k > t {
        assert(tables[t].0 == culture);
    }
    lemma_lookup_is_paired_text(tables[t].1, key, i);
}

/// A table added for a culture that no earlier table has answers for that
/// culture: each of its keys translates to its text.
pub proof fn lemma_added_table_answers(tables: Seq<TableView>, table: TableView, key: Seq<char>)
    requires
        !has_culture(tables, table.0),
        has_key(table.1, key),
    ensures
        can_translate(tables.push(table), table.0, key),
        translation(tables.push(table), table.0, key) == lookup(table.1, key),
{
    let t = tables.push(table);
    let n = tables.len() as int;
    assert(t[n].0 == table.0);
    assert(has_culture(t, table.0));
    lemma_first_culture(t, table.0);
    let k = first_culture_index(t, table.0);
    if k < n {
        assert(t[k] == tables[k]);
        assert(tables[k].0 == table.0);
        assert(has_culture(tables, table.0));
    }
}

/// Adding a table changes no translation of a culture that an earlier table has.
pub proof fn lemma_added_table_keeps_cultures(
    tables: Seq<TableView>,
    table: TableView,
    culture: Seq<char>,
    key: Seq<char>,
)
    requires
        has_culture(tables, culture),
        can_translate(tables, culture, key),
    ensures
        can_translate(tables.push(table), culture, key),
        translation(tables.push(table), culture, key) == translation(tables, culture, key),
{
    let t = tables.push(table);
    lemma_first_culture(tables, culture);
    let k = first_culture_index(tables, culture);
    assert(t[k] == tables[k]);
    assert(has_culture(t, culture));
    lemma_first_culture(t, culture);
    let k2 = first_culture_index(t, culture);
    if k2 < k {
        assert(t[k2] == tables[k2]);
    } else if k2 > k {
        assert(t[k].0 == culture);
    }
    assert(k2 == k);
}

/// A culture that no table has is translated as English.
pub proof fn lemma_missing_culture_falls_back(tables: Seq<TableView>, culture: Seq<char>, key: Seq<
    char,
>)
    requires
        !has_culture(tables, culture),
    ensures
        can_translate(tables, culture, key) == can_translate(tables, "en"@, key),
        translation(tables, culture, key) == translation(tables, "en"@, key),
{
}

} // verus!
