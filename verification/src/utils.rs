//! The style registry: an explicit table of inline style values, scoped by
//! the name of the component that wrote them. A value written under a name
//! and a property replaces the one written there before.

use vstd::prelude::*;

verus! {

/// One style value: `style` is set to `value` on whatever goes by the name
/// `wrap`.
#[derive(Debug)]
pub struct StyleEntry {
    pub wrap: String,
    pub style: String,
    pub value: String,
}

/// What a registry holds: the value written last under each name and
/// property.
pub type StyleTable = Map<(Seq<char>, Seq<char>), Seq<char>>;

/// One write to a table.
pub struct StyleWrite {
    pub wrap: Seq<char>,
    pub style: Seq<char>,
    pub value: Seq<char>,
}

impl StyleWrite {
    /// The name and property that the write is filed under.
    pub open spec fn key(self) -> (Seq<char>, Seq<char>) {
        (self.wrap, self.style)
    }
}

/// `table` after `write`.
pub open spec fn write_style(table: StyleTable, write: StyleWrite) -> StyleTable {
    table.insert(write.key(), write.value)
}

/// `table` after `writes`, from first to last.
pub open spec fn write_styles(table: StyleTable, writes: Seq<StyleWrite>) -> StyleTable
    decreases writes.len(),
{
    if writes.len() == 0 {
        table
    } else {
        write_style(write_styles(table, writes.drop_last()), writes.last())
    }
}

/// A key that no write names keeps what the table held for it before.
pub proof fn lemma_unwritten_key_keeps_value(
    table: StyleTable,
    writes: Seq<StyleWrite>,
    key: (Seq<char>, Seq<char>),
)
    requires
        forall|i: int| 0 <= i < writes.len() ==> (#[trigger] writes[i]).key() != key,
    ensures
        write_styles(table, writes).contains_key(key) == table.contains_key(key),
        write_styles(table, writes)[key] == table[key],
    decreases writes.len(),
{
    if writes.len() > 0 {
        let earlier = writes.drop_last();
        assert forall|i: int| 0 <= i < earlier.len() implies (#[trigger] earlier[i]).key()
            != key by {
            assert(earlier[i] == writes[i]);
        }
        lemma_unwritten_key_keeps_value(table, earlier, key);
        assert(writes.last() == writes[writes.len() - 1]);
    }
}

/// The last write wins: after any sequence of writes, a key holds the value
/// of the last write that names it, whatever was written before in whatever
/// order.
pub proof fn lemma_last_write_wins(table: StyleTable, writes: Seq<StyleWrite>, last: int)
    requires
        0 <= last < writes.len(),
        forall|i: int| last < i < writes.len() ==> (#[trigger] writes[i]).key() != writes[last].key(),
    ensures
        write_styles(table, writes).contains_key(writes[last].key()),
        write_styles(table, writes)[writes[last].key()] == writes[last].value,
    decreases writes.len(),
{
    let earlier = writes.drop_last();
    if last == writes.len() - 1 {
        assert(writes.last() == writes[last]);
    } else {
        assert(earlier[last] == writes[last]);
        assert forall|i: int| last < i < earlier.len() implies (#[trigger] earlier[i]).key()
            != earlier[last].key() by {
            assert(earlier[i] == writes[i]);
        }
        lemma_last_write_wins(table, earlier, last);
        assert(writes.last() == writes[writes.len() - 1]);
    }
}

impl StyleEntry {
    /// The name and property that the entry is filed under.
    pub open spec fn key(self) -> (Seq<char>, Seq<char>) {
        (self.wrap@, self.style@)
    }
}

/// No two entries are filed under the same name and property.
pub open spec fn distinct_keys(entries: Seq<StyleEntry>) -> bool {
    forall|i: int, j: int|
        0 <= i < j < entries.len() ==> (#[trigger] entries[i]).key() != (#[trigger] entries[j]).key()
}

/// Some entry of `entries` is filed under `key`.
pub open spec fn has_key(entries: Seq<StyleEntry>, key: (Seq<char>, Seq<char>)) -> bool {
    exists|i: int| 0 <= i < entries.len() && (#[trigger] entries[i]).key() == key
}

/// Position of an entry filed under `key`.
pub open spec fn position_of(entries: Seq<StyleEntry>, key: (Seq<char>, Seq<char>)) -> int {
    choose|i: int| 0 <= i < entries.len() && (#[trigger] entries[i]).key() == key
}

/// The table that a list of entries stands for.
pub open spec fn table_of(entries: Seq<StyleEntry>) -> StyleTable {
    Map::new(
        |key: (Seq<char>, Seq<char>)| has_key(entries, key),
        |key: (Seq<char>, Seq<char>)| entries[position_of(entries, key)].value@,
    )
}

/// With distinct keys, each entry is the one found under its key.
pub proof fn lemma_entry_is_found(entries: Seq<StyleEntry>, i: int)
    requires
        distinct_keys(entries),
        0 <= i < entries.len(),
    ensures
        has_key(entries, entries[i].key()),
        position_of(entries, entries[i].key()) == i,
        table_of(entries).contains_key(entries[i].key()),
        table_of(entries)[entries[i].key()] == entries[i].value@,
{
    let found = position_of(entries, entries[i].key());
    assert(0 <= found < entries.len() && entries[found].key() == entries[i].key());
    if found < i {
        assert(entries[found].key() != entries[i].key());
    } else if i < found {
        assert(entries[i].key() != entries[found].key());
    }
}

/// Appending an entry under a key that is not yet there writes that key.
proof fn lemma_push_writes(entries: Seq<StyleEntry>, entry: StyleEntry)
    requires
        distinct_keys(entries),
        !has_key(entries, entry.key()),
    ensures
        distinct_keys(entries.push(entry)),
        table_of(entries.push(entry)) == table_of(entries).insert(entry.key(), entry.value@),
{
    let grown = entries.push(entry);
    assert forall|i: int, j: int| 0 <= i < j < grown.len() implies (#[trigger] grown[i]).key() != (
    #[trigger] grown[j]).key() by {
        if j == entries.len() {
            assert(grown[i] == entries[i]);
        } else {
            assert(grown[i] == entries[i] && grown[j] == entries[j]);
        }
    }
    let target = table_of(entries).insert(entry.key(), entry.value@);
    assert forall|key: (Seq<char>, Seq<char>)| table_of(grown).contains_key(key)
        == target.contains_key(key) by {
        if has_key(grown, key) {
            let i = position_of(grown, key);
            if i < entries.len() {
                assert(entries[i] == grown[i]);
            }
        }
        if has_key(entries, key) {
            let i = position_of(entries, key);
            assert(grown[i] == entries[i]);
        }
        if key == entry.key() {
            assert(grown[entries.len() as int] == entry);
        }
    }
    assert forall|key: (Seq<char>, Seq<char>)| table_of(grown).contains_key(key) implies table_of(
        grown,
    )[key] == target[key] by {
        let i = position_of(grown, key);
        lemma_entry_is_found(grown, i);
        if i < entries.len() {
            assert(entries[i] == grown[i]);
            lemma_entry_is_found(entries, i);
        }
    }
    assert(table_of(grown) =~= target);
}

/// Replacing the value of an entry writes the key of that entry.
proof fn lemma_update_writes(entries: Seq<StyleEntry>, at: int, entry: StyleEntry)
    requires
        distinct_keys(entries),
        0 <= at < entries.len(),
        entries[at].key() == entry.key(),
    ensures
        distinct_keys(entries.update(at, entry)),
        table_of(entries.update(at, entry)) == table_of(entries).insert(entry.key(), entry.value@),
{
    let changed = entries.update(at, entry);
    assert forall|i: int, j: int| 0 <= i < j < changed.len() implies (#[trigger] changed[i]).key()
        != (#[trigger] changed[j]).key() by {
        assert(changed[i].key() == entries[i].key());
        assert(changed[j].key() == entries[j].key());
    }
    let target = table_of(entries).insert(entry.key(), entry.value@);
    assert forall|key: (Seq<char>, Seq<char>)| table_of(changed).contains_key(key)
        == target.contains_key(key) by {
        if has_key(changed, key) {
            let i = position_of(changed, key);
            assert(entries[i].key() == changed[i].key());
        }
        if has_key(entries, key) {
            let i = position_of(entries, key);
            assert(changed[i].key() == entries[i].key());
        }
        if key == entry.key() {
            assert(changed[at] == entry);
        }
    }
    assert forall|key: (Seq<char>, Seq<char>)| table_of(changed).contains_key(key) implies table_of(
        changed,
    )[key] == target[key] by {
        let i = position_of(changed, key);
        lemma_entry_is_found(changed, i);
        if i != at {
            assert(entries[i] == changed[i]);
            lemma_entry_is_found(entries, i);
        }
    }
    assert(table_of(changed) =~= target);
}

/// A table of style values that components write through a handle they are
/// given, in place of state shared behind their backs.
#[derive(Debug)]
pub struct StyleRegistry {
    entries: Vec<StyleEntry>,
}

impl View for StyleRegistry {
    type V = StyleTable;

    closed spec fn view(&self) -> StyleTable {
        table_of(self.entries@)
    }
}

impl StyleRegistry {
    /// The registry files each name and property once.
    #[verifier::type_invariant]
    spec fn filed_once(&self) -> bool {
        distinct_keys(self.entries@)
    }

    /// An empty registry.
    pub fn new() -> (registry: StyleRegistry)
        ensures
            registry@ == StyleTable::empty(),
    {
        let registry = StyleRegistry { entries: Vec::new() };
        assert(registry@ =~= StyleTable::empty());
        registry
    }

    fn find(&self, wrap: &String, style: &String) -> (at: Option<usize>)
        ensures
            match at {
                Some(i) => i < self.entries.len() && self.entries[i as int].key() == (wrap@, style@),
                None => !has_key(self.entries@, (wrap@, style@)),
            },
    {
        let mut i: usize = 0;
        while i < self.entries.len()
            invariant
                i <= self.entries.len(),
                forall|j: int| 0 <= j < i ==> (#[trigger] self.entries[j]).key() != (wrap@, style@),
            decreases self.entries.len() - i,
        {
            if self.entries[i].wrap == *wrap && self.entries[i].style == *style {
                return Some(i);
            }
            i = i + 1;
        }
        None
    }

    /// Sets `style` to `value` under the name `wrap`, in place of whatever
    /// was written there before; every other name and property keeps its
    /// value.
    pub fn create_style(&mut self, style: String, value: String, wrap: String)
        ensures
            final(self)@ == write_style(
                old(self)@,
                (StyleWrite { wrap: wrap@, style: style@, value: value@ }),
            ),
    {
        proof {
            use_type_invariant(&*self);
        }
        let at = self.find(&wrap, &style);
        let entry = StyleEntry { wrap, style, value };
        // The entries leave the registry while they change and come back
        // once every key is filed once again.
        let mut entries: Vec<StyleEntry> = Vec::new();
        core::mem::swap(&mut self.entries, &mut entries);
        match at {
            Some(i) => {
                proof {
                    lemma_update_writes(entries@, i as int, entry);
                }
                entries.set(i, entry);
            },
            None => {
                proof {
                    lemma_push_writes(entries@, entry);
                }
                entries.push(entry);
            },
        }
        core::mem::swap(&mut self.entries, &mut entries);
    }

    /// The value written last for `style` under the name `wrap`, if any.
    pub fn get(&self, wrap: &str, style: &str) -> (value: Option<String>)
        ensures
            match value {
                Some(text) => self@.contains_key((wrap@, style@)) && self@[(wrap@, style@)] == text@,
                None => !self@.contains_key((wrap@, style@)),
            },
    {
        proof {
            use_type_invariant(self);
        }
        let wrap = wrap.to_owned();
        let style = style.to_owned();
        match self.find(&wrap, &style) {
            Some(i) => {
                proof {
                    lemma_entry_is_found(self.entries@, i as int);
                }
                Some(self.entries[i].value.clone())
            },
            None => None,
        }
    }

    /// Every value the registry holds, one entry for each name and property.
    pub fn entries(&self) -> (listed: Vec<StyleEntry>)
        ensures
            distinct_keys(listed@),
            table_of(listed@) == self@,
    {
        proof {
            use_type_invariant(self);
        }
        let mut listed: Vec<StyleEntry> = Vec::new();
        let mut i: usize = 0;
        while i < self.entries.len()
            invariant
                i <= self.entries.len(),
                listed@ == self.entries@.take(i as int),
            decreases self.entries.len() - i,
        {
            let entry = &self.entries[i];
            listed.push(
                StyleEntry {
                    wrap: entry.wrap.clone(),
                    style: entry.style.clone(),
                    value: entry.value.clone(),
                },
            );
            proof {
                self.entries@.lemma_take_succ_push(i as int);
            }
            i = i + 1;
        }
        assert(self.entries@.take(self.entries.len() as int) =~= self.entries@);
        listed
    }
}

} // verus!
