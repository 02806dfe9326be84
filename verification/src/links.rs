//! How entries refer to earlier ones: by the event id that an amendment
//! corrects, and by the content digest of a parent entry.

use vstd::prelude::*;
use crate::codec::Malformed;
use crate::codec::MalformedView;
use crate::codec::decode_entry;
use crate::codec::header_spec;
use crate::digest::content_digest;
use crate::digest::digest_of;
use crate::entry::HeaderView;
use crate::entry::JournalEntryHeader;
use crate::journal::EntryView;
use crate::journal::StoredEntry;
use crate::journal::entry_views;
use crate::text::same_text;

verus! {

/// Whether an entry reads as a header with the event id `event_id`.
pub open spec fn entry_has_event(e: EntryView, event_id: Seq<char>) -> bool {
    match header_spec(e.content) {
        Ok(h) => h.event_id == event_id,
        Err(_) => false,
    }
}

/// Whether one of the first `upto` entries has the event id `event_id`.
pub open spec fn has_event_before(entries: Seq<EntryView>, upto: int, event_id: Seq<char>) -> bool {
    exists|i: int| 0 <= i < upto && i < entries.len() && entry_has_event(#[trigger] entries[i], event_id)
}

/// Whether some entry has the event id `event_id`.
pub open spec fn has_event(entries: Seq<EntryView>, event_id: Seq<char>) -> bool {
    has_event_before(entries, entries.len() as int, event_id)
}

/// Whether the entry's content has the digest `hash`.
pub open spec fn entry_has_digest(e: EntryView, hash: Seq<char>) -> bool {
    content_digest(e.content) == hash
}

/// Whether one of the first `upto` entries has the digest `hash`.
pub open spec fn has_digest_before(entries: Seq<EntryView>, upto: int, hash: Seq<char>) -> bool {
    exists|i: int| 0 <= i < upto && i < entries.len() && entry_has_digest(#[trigger] entries[i], hash)
}

/// The index of the first entry from `from` on, and before `upto`, whose
/// digest is `hash`.
pub open spec fn first_digest_from(
    entries: Seq<EntryView>,
    upto: int,
    hash: Seq<char>,
    from: int,
) -> Option<int>
    decreases upto - from,
{
    if from < 0 || from >= upto || from >= entries.len() {
        None
    } else if entry_has_digest(entries[from], hash) {
        Some(from)
    } else {
        first_digest_from(entries, upto, hash, from + 1)
    }
}

/// The file name of the first of the first `upto` entries whose digest is `hash`.
pub open spec fn parent_before(entries: Seq<EntryView>, upto: int, hash: Seq<char>) -> Option<
    Seq<char>,
> {
    match first_digest_from(entries, upto, hash, 0) {
        Some(k) => Some(entries[k].filename),
        None => None,
    }
}

/// The file name of the first entry whose digest is `hash`.
pub open spec fn resolve_parent(entries: Seq<EntryView>, hash: Seq<char>) -> Option<Seq<char>> {
    parent_before(entries, entries.len() as int, hash)
}

/// Whether one of the first `upto` entries has the file name `name` and the
/// digest `hash`.
pub open spec fn has_named_digest_before(
    entries: Seq<EntryView>,
    upto: int,
    name: Seq<char>,
    hash: Seq<char>,
) -> bool {
    exists|i: int|
        0 <= i < upto && i < entries.len() && (#[trigger] entries[i]).filename == name
            && entry_has_digest(entries[i], hash)
}

/// A search for a digest finds an entry exactly where one has it.
pub proof fn lemma_first_digest(entries: Seq<EntryView>, upto: int, hash: Seq<char>, from: int)
    requires
        0 <= from,
    ensures
        match first_digest_from(entries, upto, hash, from) {
            Some(k) => from <= k < upto && k < entries.len() && entry_has_digest(entries[k], hash),
            None => forall|i: int|
                from <= i < upto && i < entries.len() ==> !entry_has_digest(
                    #[trigger] entries[i],
                    hash,
                ),
        },
    decreases upto - from,
{
    if from < upto && from < entries.len() && !entry_has_digest(entries[from], hash) {
        lemma_first_digest(entries, upto, hash, from + 1);
    }
}

/// A parent is resolved exactly where some entry has the digest.
pub proof fn lemma_parent_before(entries: Seq<EntryView>, upto: int, hash: Seq<char>)
    ensures
        parent_before(entries, upto, hash) is Some <==> has_digest_before(entries, upto, hash),
        parent_before(entries, upto, hash) is Some ==> has_named_digest_before(
            entries,
            upto,
            parent_before(entries, upto, hash)->0,
            hash,
        ),
{
    lemma_first_digest(entries, upto, hash, 0);
}

/// What the journal knows of a stored entry once it has been read: its file
/// name, the digest of its content, and its header or why it has none.
#[derive(Debug)]
pub struct Indexed {
    pub filename: String,
    pub digest: String,
    pub header: Result<JournalEntryHeader, Malformed>,
}

/// The mathematical value of an [`Indexed`].
pub struct IndexedView {
    pub filename: Seq<char>,
    pub digest: Seq<char>,
    pub header: Result<HeaderView, MalformedView>,
}

impl View for Indexed {
    type V = IndexedView;

    open spec fn view(&self) -> IndexedView {
        IndexedView {
            filename: self.filename@,
            digest: self.digest@,
            header: match self.header {
                Ok(h) => Ok(h@),
                Err(e) => Err(e@),
            },
        }
    }
}

/// What reading a stored entry yields.
pub open spec fn indexed_of(e: EntryView) -> IndexedView {
    IndexedView {
        filename: e.filename,
        digest: content_digest(e.content),
        header: header_spec(e.content),
    }
}

/// Whether `index` holds what reading each of `entries` yields, in order.
pub open spec fn indexes(index: Vec<Indexed>, entries: Seq<EntryView>) -> bool {
    &&& index.len() == entries.len()
    &&& forall|i: int| 0 <= i < entries.len() ==> (#[trigger] index[i])@ == indexed_of(entries[i])
}

/// Reads one stored entry.
pub fn index_entry(entry: &StoredEntry) -> (r: Indexed)
    ensures
        r@ == indexed_of(entry@),
{
    let header = match decode_entry(entry.content.as_str()) {
        Ok(parts) => Ok(parts.0),
        Err(e) => Err(e),
    };
    Indexed {
        filename: entry.filename.clone(),
        digest: digest_of(entry.content.as_str()),
        header,
    }
}

/// Reads every stored entry of a partition.
pub fn index_entries(entries: &Vec<StoredEntry>) -> (r: Vec<Indexed>)
    ensures
        indexes(r, entry_views(*entries)),
{
    let mut out: Vec<Indexed> = Vec::new();
    let mut i: usize = 0;
    while i < entries.len()
        invariant
            i <= entries.len(),
            out.len() == i,
            forall|k: int| 0 <= k < i ==> (#[trigger] out[k])@ == indexed_of(entries[k]@),
        decreases entries.len() - i,
    {
        out.push(index_entry(&entries[i]));
        i += 1;
    }
    out
}

/// Whether one of the first `upto` entries has the event id `event_id`.
pub(crate) fn event_known(index: &Vec<Indexed>, upto: usize, event_id: &str, Ghost(entries): Ghost<
    Seq<EntryView>,
>) -> (r: bool)
    requires
        indexes(*index, entries),
        upto <= index.len(),
    ensures
        r == has_event_before(entries, upto as int, event_id@),
{
    let mut i: usize = 0;
    while i < upto
        invariant
            i <= upto <= index.len(),
            indexes(*index, entries),
            !has_event_before(entries, i as int, event_id@),
        decreases upto - i,
    {
        let hit = match &index[i].header {
            Ok(h) => same_text(h.gitehr_event_id.as_str(), event_id),
            Err(_) => false,
        };
        if hit {
            return true;
        }
        i += 1;
    }
    false
}

/// The index of the first of the first `upto` entries whose digest is `hash`.
pub(crate) fn find_digest(index: &Vec<Indexed>, upto: usize, hash: &str, Ghost(entries): Ghost<
    Seq<EntryView>,
>) -> (r: Option<usize>)
    requires
        indexes(*index, entries),
        upto <= index.len(),
    ensures
        match r {
            Some(k) => first_digest_from(entries, upto as int, hash@, 0) == Some(k as int) && k
                < upto,
            None => first_digest_from(entries, upto as int, hash@, 0) is None,
        },
{
    let mut i: usize = 0;
    while i < upto
        invariant
            i <= upto <= index.len(),
            indexes(*index, entries),
            first_digest_from(entries, upto as int, hash@, 0) == first_digest_from(
                entries,
                upto as int,
                hash@,
                i as int,
            ),
        decreases upto - i,
    {
        if same_text(index[i].digest.as_str(), hash) {
            return Some(i);
        }
        i += 1;
    }
    None
}

/// Whether one of the first `upto` entries has the file name `name` and the
/// digest `hash`.
pub(crate) fn named_digest_known(
    index: &Vec<Indexed>,
    upto: usize,
    name: &str,
    hash: &str,
    Ghost(entries): Ghost<Seq<EntryView>>,
) -> (r: bool)
    requires
        indexes(*index, entries),
        upto <= index.len(),
    ensures
        r == has_named_digest_before(entries, upto as int, name@, hash@),
{
    let mut i: usize = 0;
    while i < upto
        invariant
            i <= upto <= index.len(),
            indexes(*index, entries),
            !has_named_digest_before(entries, i as int, name@, hash@),
        decreases upto - i,
    {
        if same_text(index[i].filename.as_str(), name) && same_text(
            index[i].digest.as_str(),
            hash,
        ) {
            return true;
        }
        i += 1;
    }
    false
}

} // verus!
