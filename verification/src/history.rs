//! The transcription history: the last hundred results, oldest first.

use vstd::prelude::*;

verus! {

/// Maximum number of history entries to keep.
pub const MAX_HISTORY_ENTRIES: usize = 100;

/// One finished transcription.
#[derive(Debug, Clone)]
pub struct HistoryEntry {
    pub id: u64,
    /// Milliseconds since the Unix epoch, UTC.
    pub timestamp: i64,
    pub original_text: String,
    pub translated_text: Option<String>,
    /// Detected source language.
    pub source_language: Option<String>,
    /// Target language if translated.
    pub target_language: Option<String>,
}

/// A `HistoryEntry` as plain values.
pub struct EntryView {
    pub id: u64,
    pub timestamp: i64,
    pub original_text: Seq<char>,
    pub translated_text: Option<Seq<char>>,
    pub source_language: Option<Seq<char>>,
    pub target_language: Option<Seq<char>>,
}

/// The view of an optional string.
pub open spec fn optional_text(s: Option<String>) -> Option<Seq<char>> {
    match s {
        Some(s) => Some(s@),
        None => None,
    }
}

impl View for HistoryEntry {
    type V = EntryView;

    open spec fn view(&self) -> EntryView {
        EntryView {
            id: self.id,
            timestamp: self.timestamp,
            original_text: self.original_text@,
            translated_text: optional_text(self.translated_text),
            source_language: optional_text(self.source_language),
            target_language: optional_text(self.target_language),
        }
    }
}

/// `chrono::Utc::now` and `DateTime::timestamp_millis`: the time of the
/// call. Nothing is promised of it.
#[verifier::external_body]
fn current_time_millis() -> (now: i64) {
    chrono::Utc::now().timestamp_millis()
}

fn copy_optional(s: &Option<String>) -> (copy: Option<String>)
    ensures
        optional_text(copy) == optional_text(*s),
{
    match s {
        Some(s) => Some(s.clone()),
        None => None,
    }
}

impl HistoryEntry {
    /// An entry with the given time.
    pub fn at(
        id: u64,
        timestamp: i64,
        original: String,
        translated: Option<String>,
        source_language: Option<String>,
        target_language: Option<String>,
    ) -> (entry: Self)
        ensures
            entry@ == (EntryView {
                id,
                timestamp,
                original_text: original@,
                translated_text: optional_text(translated),
                source_language: optional_text(source_language),
                target_language: optional_text(target_language),
            }),
    {
        HistoryEntry {
            id,
            timestamp,
            original_text: original,
            translated_text: translated,
            source_language,
            target_language,
        }
    }

    /// An entry with the time of the call.
    pub fn new(
        id: u64,
        original: String,
        translated: Option<String>,
        source_language: Option<String>,
        target_language: Option<String>,
    ) -> (entry: Self)
        ensures
            entry@ == (EntryView {
                id,
                timestamp: entry.timestamp,
                original_text: original@,
                translated_text: optional_text(translated),
                source_language: optional_text(source_language),
                target_language: optional_text(target_language),
            }),
    {
        Self::at(
            id,
            current_time_millis(),
            original,
            translated,
            source_language,
            target_language,
        )
    }

    pub fn duplicate(&self) -> (copy: Self)
        ensures
            copy@ == self@,
    {
        HistoryEntry {
            id: self.id,
            timestamp: self.timestamp,
            original_text: self.original_text.clone(),
            translated_text: copy_optional(&self.translated_text),
            source_language: copy_optional(&self.source_language),
            target_language: copy_optional(&self.target_language),
        }
    }
}

/// The views of a list of entries.
pub open spec fn entry_views(entries: Seq<HistoryEntry>) -> Seq<EntryView> {
    entries.map_values(|e: HistoryEntry| e@)
}

/// The entries without those of the given id.
pub open spec fn without_id(entries: Seq<EntryView>, id: u64) -> Seq<EntryView>
    decreases entries.len(),
{
    if entries.len() == 0 {
        Seq::empty()
    } else if entries.last().id == id {
        without_id(entries.drop_last(), id)
    } else {
        without_id(entries.drop_last(), id).push(entries.last())
    }
}

/// The last `limit` entries.
pub open spec fn newest(entries: Seq<EntryView>, limit: int) -> Seq<EntryView> {
    if entries.len() > limit {
        entries.skip(entries.len() - limit)
    } else {
        entries
    }
}

/// The id after `id`: one more, starting over after the largest.
pub open spec fn following_id(id: u64) -> u64 {
    if id == u64::MAX {
        0
    } else {
        (id + 1) as u64
    }
}

/// Removing by id removes nothing else, keeps the order and never adds.
pub proof fn lemma_without_id(entries: Seq<EntryView>, id: u64)
    ensures
        without_id(entries, id).len() <= entries.len(),
        forall|i: int| 0 <= i < without_id(entries, id).len() ==> without_id(entries, id)[i].id != id,
        without_id(entries, id).len() == entries.len() <==> forall|i: int|
            0 <= i < entries.len() ==> entries[i].id != id,
        without_id(entries, id).len() == entries.len() ==> without_id(entries, id) == entries,
    decreases entries.len(),
{
    if entries.len() > 0 {
        let front = entries.drop_last();
        lemma_without_id(front, id);
        if entries.last().id != id {
            if without_id(entries, id).len() == entries.len() {
                assert(without_id(entries, id) =~= entries);
                assert forall|i: int| 0 <= i < entries.len() implies entries[i].id != id by {
                    if i < front.len() {
                        assert(front[i] == entries[i]);
                    }
                }
            }
            if forall|i: int| 0 <= i < entries.len() ==> entries[i].id != id {
                assert forall|i: int| 0 <= i < front.len() implies front[i].id != id by {
                    assert(front[i] == entries[i]);
                }
            }
        }
    }
}

/// The history: entries in the order they were added, and the id that the
/// next one gets.
pub struct History {
    entries: Vec<HistoryEntry>,
    next_id: u64,
}

impl History {
    /// The entries, oldest first.
    pub closed spec fn entries(&self) -> Seq<EntryView> {
        entry_views(self.entries@)
    }

    /// The id of the next entry.
    pub closed spec fn next_id(&self) -> u64 {
        self.next_id
    }

    /// The history never holds more than `MAX_HISTORY_ENTRIES`.
    pub open spec fn wf(&self) -> bool {
        self.entries().len() <= MAX_HISTORY_ENTRIES
    }

    #[verifier::type_invariant]
    spec fn well_formed(self) -> bool {
        self.wf()
    }

    pub fn new() -> (history: Self)
        ensures
            history.wf(),
            history.entries() == Seq::<EntryView>::empty(),
            history.next_id() == 1,
    {
        let history = History { entries: Vec::new(), next_id: 1 };
        assert(history.entries() =~= Seq::<EntryView>::empty());
        history
    }

    pub fn len(&self) -> (n: usize)
        ensures
            n == self.entries().len(),
            n <= MAX_HISTORY_ENTRIES,
    {
        proof {
            use_type_invariant(self);
        }
        self.entries.len()
    }

    /// Adds an entry with the given time and hands back a copy of it. The
    /// oldest entries leave where the history would grow past its limit.
    pub fn add_entry_at(
        &mut self,
        timestamp: i64,
        original: String,
        translated: Option<String>,
        source_language: Option<String>,
        target_language: Option<String>,
    ) -> (entry: HistoryEntry)
        ensures
            final(self).wf(),
            entry@ == (EntryView {
                id: old(self).next_id(),
                timestamp,
                original_text: original@,
                translated_text: optional_text(translated),
                source_language: optional_text(source_language),
                target_language: optional_text(target_language),
            }),
            final(self).entries() == newest(
                old(self).entries().push(entry@),
                MAX_HISTORY_ENTRIES as int,
            ),
            final(self).next_id() == following_id(old(self).next_id()),
    {
        proof {
            use_type_invariant(&*self);
        }
        let mut taken = History { entries: Vec::new(), next_id: 0 };
        core::mem::swap(self, &mut taken);
        let History { entries, next_id: id } = taken;
        let mut entries = entries;
        let entry = HistoryEntry::at(
            id,
            timestamp,
            original,
            translated,
            source_language,
            target_language,
        );
        let copy = entry.duplicate();
        let ghost before = entries@;
        entries.push(entry);
        assert(entry_views(entries@) =~= entry_views(before).push(copy@));
        if entries.len() > MAX_HISTORY_ENTRIES {
            let ghost full = entries@;
            entries.remove(0);
            assert(entry_views(entries@) =~= entry_views(full).skip(1));
        }
        let next_id: u64 = if id == u64::MAX {
            0
        } else {
            id + 1
        };
        *self = History { entries, next_id };
        copy
    }

    /// Adds an entry with the time of the call.
    pub fn add_history_entry(
        &mut self,
        original: String,
        translated: Option<String>,
        source_language: Option<String>,
        target_language: Option<String>,
    ) -> (entry: HistoryEntry)
        ensures
            final(self).wf(),
            entry@ == (EntryView {
                id: old(self).next_id(),
                timestamp: entry.timestamp,
                original_text: original@,
                translated_text: optional_text(translated),
                source_language: optional_text(source_language),
                target_language: optional_text(target_language),
            }),
            final(self).entries() == newest(
                old(self).entries().push(entry@),
                MAX_HISTORY_ENTRIES as int,
            ),
            final(self).next_id() == following_id(old(self).next_id()),
    {
        self.add_entry_at(
            current_time_millis(),
            original,
            translated,
            source_language,
            target_language,
        )
    }

    /// All entries, newest first.
    pub fn get_history(&self) -> (listed: Vec<HistoryEntry>)
        ensures
            entry_views(listed@) == self.entries().reverse(),
    {
        let mut listed: Vec<HistoryEntry> = Vec::new();
        let n: usize = self.entries.len();
        let mut i: usize = 0;
        while i < n
            invariant
                i <= n,
                n == self.entries@.len(),
                listed@.len() == i,
                forall|j: int| 0 <= j < i ==> (#[trigger] listed@[j])@ == self.entries@[n - 1 - j]@,
            decreases n - i,
        {
            listed.push(self.entries[n - 1 - i].duplicate());
            i += 1;
        }
        assert(entry_views(listed@) =~= self.entries().reverse());
        listed
    }

    /// Removes every entry.
    pub fn clear_history(&mut self)
        ensures
            final(self).wf(),
            final(self).entries() == Seq::<EntryView>::empty(),
            final(self).next_id() == old(self).next_id(),
    {
        let next_id = self.next_id;
        *self = History { entries: Vec::new(), next_id };
        assert(self.entries() =~= Seq::<EntryView>::empty());
    }

    /// Removes the entries with the given id and says whether there was one.
    pub fn delete_history_entry(&mut self, id: u64) -> (deleted: bool)
        ensures
            final(self).wf(),
            final(self).entries() == without_id(old(self).entries(), id),
            final(self).next_id() == old(self).next_id(),
            deleted == exists|i: int|
                0 <= i < old(self).entries().len() && old(self).entries()[i].id == id,
    {
        proof {
            use_type_invariant(&*self);
        }
        let mut taken = History { entries: Vec::new(), next_id: 0 };
        core::mem::swap(self, &mut taken);
        let History { entries: rest, next_id } = taken;
        let mut kept: Vec<HistoryEntry> = Vec::new();
        let initial: usize = rest.len();
        let ghost all = rest@;
        let mut i: usize = 0;
        assert(entry_views(all).take(0) =~= Seq::<EntryView>::empty());
        assert(entry_views(kept@) =~= Seq::<EntryView>::empty());
        while i < rest.len()
            invariant
                i <= rest@.len(),
                rest@ == all,
                entry_views(kept@) == without_id(entry_views(all).take(i as int), id),
            decreases rest@.len() - i,
        {
            let ghost earlier = kept@;
            proof {
                let now = entry_views(all).take(i + 1);
                assert(now.drop_last() =~= entry_views(all).take(i as int));
                assert(now.last() == all[i as int]@);
            }
            if rest[i].id != id {
                kept.push(rest[i].duplicate());
                assert(entry_views(kept@) =~= entry_views(earlier).push(all[i as int]@));
            }
            i += 1;
        }
        assert(entry_views(all).take(all.len() as int) =~= entry_views(all));
        proof {
            lemma_without_id(entry_views(all), id);
        }
        let deleted = kept.len() < initial;
        *self = History { entries: kept, next_id };
        proof {
            let views = entry_views(all);
            if deleted {
                assert(exists|i: int| 0 <= i < views.len() && views[i].id == id);
            } else {
                assert(forall|i: int| 0 <= i < views.len() ==> views[i].id != id);
            }
        }
        deleted
    }
}

/// What goes into the history for a streamed transcript: the translation
/// is kept beside the original only where translation was on and changed
/// the text.
pub open spec fn history_texts(
    auto_translate: bool,
    original: Seq<char>,
    delivered: Seq<char>,
) -> (Seq<char>, Option<Seq<char>>) {
    if auto_translate && delivered != original {
        (original, Some(delivered))
    } else {
        (delivered, None)
    }
}

pub fn texts_for_history(auto_translate: bool, original: String, delivered: String) -> (texts: (
    String,
    Option<String>,
))
    ensures
        (texts.0@, optional_text(texts.1)) == history_texts(auto_translate, original@, delivered@),
{
    if auto_translate && delivered != original {
        (original, Some(delivered))
    } else {
        (delivered, None)
    }
}

} // verus!
