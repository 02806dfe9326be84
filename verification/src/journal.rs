//! The journal as a value: one partition for each patient, each an
//! append-only list of stored entries in file-name order.

use vstd::prelude::*;
use crate::text::lemma_lex_irreflexive;
use crate::text::lemma_lex_total;
use crate::text::lemma_lex_transitive;
use crate::text::lex_lt;
use crate::text::same_text;
use crate::text::text_lt;

verus! {

/// One entry as it is stored: the name of its file and the text in it.
#[derive(Debug, Clone)]
pub struct StoredEntry {
    pub filename: String,
    pub content: String,
}

/// The mathematical value of a [`StoredEntry`].
pub struct EntryView {
    pub filename: Seq<char>,
    pub content: Seq<char>,
}

impl View for StoredEntry {
    type V = EntryView;

    open spec fn view(&self) -> EntryView {
        EntryView { filename: self.filename@, content: self.content@ }
    }
}

/// The views of a vector of stored entries.
pub open spec fn entry_views(v: Vec<StoredEntry>) -> Seq<EntryView> {
    Seq::new(v.len() as nat, |i: int| v[i]@)
}

/// The entries of one patient.
#[derive(Debug, Clone)]
pub struct PatientJournal {
    pub patient_id: String,
    pub entries: Vec<StoredEntry>,
}

/// The mathematical value of a [`PatientJournal`].
pub struct PartitionView {
    pub patient_id: Seq<char>,
    pub entries: Seq<EntryView>,
}

impl View for PatientJournal {
    type V = PartitionView;

    open spec fn view(&self) -> PartitionView {
        PartitionView { patient_id: self.patient_id@, entries: entry_views(self.entries) }
    }
}

/// The views of a vector of partitions.
pub open spec fn partition_views(v: Vec<PatientJournal>) -> Seq<PartitionView> {
    Seq::new(v.len() as nat, |i: int| v[i]@)
}

/// Entries in strictly increasing order of file name.
pub open spec fn sorted(entries: Seq<EntryView>) -> bool {
    forall|i: int, j: int|
        0 <= i < j < entries.len() ==> lex_lt(
            #[trigger] entries[i].filename,
            #[trigger] entries[j].filename,
        )
}

/// The index of the first entry from `from` on whose file name does not sort
/// before `name`, or the length where there is none.
pub open spec fn rank_from(entries: Seq<EntryView>, name: Seq<char>, from: int) -> int
    decreases entries.len() - from,
{
    if from < 0 || from >= entries.len() {
        entries.len() as int
    } else if lex_lt(entries[from].filename, name) {
        rank_from(entries, name, from + 1)
    } else {
        from
    }
}

/// Where an entry of the file name `name` belongs: after the entries whose
/// names sort before it.
pub open spec fn rank(entries: Seq<EntryView>, name: Seq<char>) -> int {
    rank_from(entries, name, 0)
}

/// Whether an entry of that file name is among `entries`.
pub open spec fn has_file(entries: Seq<EntryView>, name: Seq<char>) -> bool {
    exists|i: int| 0 <= i < entries.len() && #[trigger] entries[i].filename == name
}

/// The mathematical value of a [`Journal`].
pub struct JournalView {
    pub partitions: Seq<PartitionView>,
}

impl JournalView {
    /// Every partition is sorted, and no two partitions are of one patient.
    pub open spec fn wf(self) -> bool {
        &&& forall|p: int| 0 <= p < self.partitions.len() ==> sorted(#[trigger] self.partitions[p].entries)
        &&& forall|p: int, q: int|
            0 <= p < q < self.partitions.len() ==> #[trigger] self.partitions[p].patient_id
                != #[trigger] self.partitions[q].patient_id
    }

    /// Whether the partition at `p` is the one of `patient_id`.
    pub open spec fn is_partition_of(self, p: int, patient_id: Seq<char>) -> bool {
        0 <= p < self.partitions.len() && self.partitions[p].patient_id == patient_id
    }

    /// Whether the patient has a partition.
    pub open spec fn has_partition(self, patient_id: Seq<char>) -> bool {
        exists|p: int| self.is_partition_of(p, patient_id)
    }

    /// The index of the patient's partition, where there is one.
    pub open spec fn partition_index(self, patient_id: Seq<char>) -> int {
        choose|p: int| self.is_partition_of(p, patient_id)
    }

    /// The entries of a patient: empty where the patient has no partition.
    pub open spec fn entries_of(self, patient_id: Seq<char>) -> Seq<EntryView> {
        if self.has_partition(patient_id) {
            self.partitions[self.partition_index(patient_id)].entries
        } else {
            Seq::empty()
        }
    }

    /// The journal with one more entry, put where its file name belongs in
    /// the patient's partition; a patient without a partition gets one, after
    /// the others.
    pub open spec fn with_entry(self, patient_id: Seq<char>, entry: EntryView) -> JournalView {
        if self.has_partition(patient_id) {
            let p = self.partition_index(patient_id);
            let old_entries = self.partitions[p].entries;
            JournalView {
                partitions: self.partitions.update(
                    p,
                    PartitionView {
                        patient_id,
                        entries: old_entries.insert(rank(old_entries, entry.filename), entry),
                    },
                ),
            }
        } else {
            JournalView {
                partitions: self.partitions.push(
                    PartitionView { patient_id, entries: seq![entry] },
                ),
            }
        }
    }

    /// The journal with an empty partition for a patient who has none.
    pub open spec fn with_partition(self, patient_id: Seq<char>) -> JournalView {
        if self.has_partition(patient_id) {
            self
        } else {
            JournalView {
                partitions: self.partitions.push(
                    PartitionView { patient_id, entries: Seq::empty() },
                ),
            }
        }
    }
}

/// The scan for the rank stops within the sequence, behind entries that sort before `name`, at one that does not.
pub proof fn lemma_rank_from(entries: Seq<EntryView>, name: Seq<char>, from: int)
    requires
        0 <= from <= entries.len(),
    ensures
        from <= rank_from(entries, name, from) <= entries.len(),
        forall|i: int|
            from <= i < rank_from(entries, name, from) ==> lex_lt(
                #[trigger] entries[i].filename,
                name,
            ),
        rank_from(entries, name, from) < entries.len() ==> !lex_lt(
            entries[rank_from(entries, name, from)].filename,
            name,
        ),
    decreases entries.len() - from,
{
    if from < entries.len() && lex_lt(entries[from].filename, name) {
        lemma_rank_from(entries, name, from + 1);
    }
}

/// In a sorted sequence the entries before the rank sort before `name`, and
/// those from the rank on do not.
pub proof fn lemma_rank_splits(entries: Seq<EntryView>, name: Seq<char>)
    requires
        sorted(entries),
    ensures
        0 <= rank(entries, name) <= entries.len(),
        forall|i: int| 0 <= i < rank(entries, name) ==> lex_lt(#[trigger] entries[i].filename, name),
        forall|i: int|
            rank(entries, name) <= i < entries.len() ==> !lex_lt(
                #[trigger] entries[i].filename,
                name,
            ),
{
    lemma_rank_from(entries, name, 0);
    let r = rank(entries, name);
    assert forall|i: int| r <= i < entries.len() implies !lex_lt(
        #[trigger] entries[i].filename,
        name,
    ) by {
        if r < i && lex_lt(entries[i].filename, name) {
            lemma_lex_transitive(entries[r].filename, entries[i].filename, name);
        }
    }
}

/// Putting an entry of a new file name at its rank keeps the order.
pub proof fn lemma_insert_sorted(entries: Seq<EntryView>, entry: EntryView)
    requires
        sorted(entries),
        !has_file(entries, entry.filename),
    ensures
        sorted(entries.insert(rank(entries, entry.filename), entry)),
{
    let name = entry.filename;
    let r = rank(entries, name);
    lemma_rank_splits(entries, name);
    let out = entries.insert(r, entry);
    assert forall|i: int, j: int| 0 <= i < j < out.len() implies lex_lt(
        #[trigger] out[i].filename,
        #[trigger] out[j].filename,
    ) by {
        if i == r {
            lemma_lex_total(entries[j - 1].filename, name);
        }
    }
}

/// In a well-formed journal a patient has at most one partition.
pub proof fn lemma_partition_unique(j: JournalView, p: int, patient_id: Seq<char>)
    requires
        j.wf(),
        j.is_partition_of(p, patient_id),
    ensures
        j.has_partition(patient_id),
        j.partition_index(patient_id) == p,
        j.entries_of(patient_id) == j.partitions[p].entries,
{
}

/// Adding an entry of a new file name keeps a journal well-formed.
pub proof fn lemma_with_entry_wf(j: JournalView, patient_id: Seq<char>, entry: EntryView)
    requires
        j.wf(),
        !has_file(j.entries_of(patient_id), entry.filename),
    ensures
        j.with_entry(patient_id, entry).wf(),
{
    let out = j.with_entry(patient_id, entry);
    if j.has_partition(patient_id) {
        let p = j.partition_index(patient_id);
        lemma_insert_sorted(j.partitions[p].entries, entry);
    } else {
        let n = j.partitions.len() as int;
        assert forall|a: int, b: int| 0 <= a < b < out.partitions.len() implies #[trigger] out.partitions[a].patient_id
            != #[trigger] out.partitions[b].patient_id by {
            if b == n {
                assert(!j.is_partition_of(a, patient_id));
            }
        }
    }
}

/// A journal: the stored entries of every patient. Entries are added and
/// never changed or taken away.
#[derive(Debug)]
pub struct Journal {
    partitions: Vec<PatientJournal>,
}

impl View for Journal {
    type V = JournalView;

    closed spec fn view(&self) -> JournalView {
        JournalView { partitions: partition_views(self.partitions) }
    }
}

/// Where `name` belongs among sorted entries, and whether an entry of that
/// name is there already.
fn locate(entries: &Vec<StoredEntry>, name: &str) -> (r: (usize, bool))
    requires
        sorted(entry_views(*entries)),
    ensures
        r.0 == rank(entry_views(*entries), name@),
        r.0 <= entries.len(),
        r.1 == has_file(entry_views(*entries), name@),
        r.1 ==> r.0 < entries.len() && entries[r.0 as int].filename@ == name@,
{
    let ghost views = entry_views(*entries);
    let mut i: usize = 0;
    while i < entries.len() && text_lt(entries[i].filename.as_str(), name)
        invariant
            i <= entries.len(),
            views == entry_views(*entries),
            rank(views, name@) == rank_from(views, name@, i as int),
        decreases entries.len() - i,
    {
        i += 1;
    }
    let found = i < entries.len() && same_text(entries[i].filename.as_str(), name);
    proof {
        lemma_rank_splits(views, name@);
        if !found && has_file(views, name@) {
            lemma_lex_irreflexive(name@);
        }
    }
    (i, found)
}

impl Journal {
    /// What holds of every value of this type.
    #[verifier::type_invariant]
    pub open spec fn inv(self) -> bool {
        self@.wf()
    }

    /// The empty journal.
    pub fn new() -> (r: Journal)
        ensures
            r@.partitions.len() == 0,
    {
        let partitions: Vec<PatientJournal> = Vec::new();
        Journal { partitions }
    }

    /// The number of partitions.
    pub fn partition_count(&self) -> (r: usize)
        ensures
            r == self@.partitions.len(),
    {
        self.partitions.len()
    }

    /// The partition at index `p`, if there is one.
    pub fn partition(&self, p: usize) -> (r: Option<&PatientJournal>)
        ensures
            match r {
                Some(part) => p < self@.partitions.len() && part@ == self@.partitions[p as int],
                None => p >= self@.partitions.len(),
            },
    {
        if p < self.partitions.len() {
            Some(&self.partitions[p])
        } else {
            None
        }
    }

    /// The partition at index `p`.
    pub(crate) fn partition_at(&self, p: usize) -> (r: &PatientJournal)
        requires
            p < self@.partitions.len(),
        ensures
            r@ == self@.partitions[p as int],
    {
        &self.partitions[p]
    }

    /// The entries of a patient, in file-name order; none where the patient
    /// has no partition.
    pub fn entries_of(&self, patient_id: &str) -> (r: Vec<StoredEntry>)
        ensures
            entry_views(r) == self@.entries_of(patient_id@),
    {
        let mut out: Vec<StoredEntry> = Vec::new();
        match self.find_partition(patient_id) {
            None => {},
            Some(p) => {
                let part = &self.partitions[p];
                let mut i: usize = 0;
                while i < part.entries.len()
                    invariant
                        i <= part.entries.len(),
                        out.len() == i,
                        forall|k: int| 0 <= k < i ==> (#[trigger] out[k])@ == part.entries[k]@,
                    decreases part.entries.len() - i,
                {
                    out.push(
                        StoredEntry {
                            filename: part.entries[i].filename.clone(),
                            content: part.entries[i].content.clone(),
                        },
                    );
                    i += 1;
                }
            },
        }
        out
    }

    /// The index of the patient's partition, if the patient has one.
    pub fn find_partition(&self, patient_id: &str) -> (r: Option<usize>)
        ensures
            match r {
                Some(p) => self@.is_partition_of(p as int, patient_id@) && self@.has_partition(
                    patient_id@,
                ) && self@.partition_index(patient_id@) == p,
                None => !self@.has_partition(patient_id@),
            },
    {
        let mut i: usize = 0;
        while i < self.partitions.len()
            invariant
                i <= self.partitions.len(),
                forall|k: int| 0 <= k < i ==> !self@.is_partition_of(k, patient_id@),
            decreases self.partitions.len() - i,
        {
            if same_text(self.partitions[i].patient_id.as_str(), patient_id) {
                proof {
                    use_type_invariant(self);
                    lemma_partition_unique(self@, i as int, patient_id@);
                }
                return Some(i);
            }
            i += 1;
        }
        None
    }

    /// Makes an empty partition for a patient who has none.
    pub fn ensure_partition(&mut self, patient_id: &str)
        ensures
            final(self)@ == old(self)@.with_partition(patient_id@),
    {
        match self.find_partition(patient_id) {
            Some(_) => {},
            None => {
                proof {
                    use_type_invariant(&*self);
                }
                let ghost before = self@;
                let entries: Vec<StoredEntry> = Vec::new();
                assert(entry_views(entries) =~= Seq::empty());
                let part = PatientJournal { patient_id: patient_id.to_owned(), entries };
                let mut parts: Vec<PatientJournal> = Vec::new();
                core::mem::swap(&mut self.partitions, &mut parts);
                parts.push(part);
                proof {
                    assert(partition_views(parts) =~= before.with_partition(
                        patient_id@,
                    ).partitions);
                    let out = before.with_partition(patient_id@);
                    assert forall|a: int, b: int|
                        0 <= a < b < out.partitions.len() implies #[trigger] out.partitions[a].patient_id
                        != #[trigger] out.partitions[b].patient_id by {
                        if b == before.partitions.len() {
                            assert(!before.is_partition_of(a, patient_id@));
                        }
                    }
                }
                self.partitions = parts;
            },
        }
    }

    /// Adds an entry to a patient's partition, where its file name belongs.
    /// Nothing changes, and the answer is `false`, where the partition holds
    /// an entry of that file name already.
    pub fn insert_entry(&mut self, patient_id: &str, entry: StoredEntry) -> (r: bool)
        ensures
            r == !has_file(old(self)@.entries_of(patient_id@), entry@.filename),
            r ==> final(self)@ == old(self)@.with_entry(patient_id@, entry@),
            !r ==> final(self)@ == old(self)@,
    {
        proof {
            use_type_invariant(&*self);
        }
        let ghost before = self@;
        match self.find_partition(patient_id) {
            Some(p) => {
                let ghost old_entries = before.partitions[p as int].entries;
                let (pos, found) = locate(&self.partitions[p].entries, entry.filename.as_str());
                if found {
                    return false;
                }
                let mut parts: Vec<PatientJournal> = Vec::new();
                core::mem::swap(&mut self.partitions, &mut parts);
                let mut part = parts.remove(p);
                part.entries.insert(pos, entry);
                parts.insert(p, part);
                proof {
                    lemma_with_entry_wf(before, patient_id@, entry@);
                    let out = before.with_entry(patient_id@, entry@);
                    assert(entry_views(part.entries) =~= old_entries.insert(pos as int, entry@));
                    assert(partition_views(parts) =~= out.partitions);
                }
                self.partitions = parts;
                true
            },
            None => {
                let mut entries: Vec<StoredEntry> = Vec::new();
                entries.push(entry);
                let part = PatientJournal { patient_id: patient_id.to_owned(), entries };
                let mut parts: Vec<PatientJournal> = Vec::new();
                core::mem::swap(&mut self.partitions, &mut parts);
                parts.push(part);
                proof {
                    lemma_with_entry_wf(before, patient_id@, entry@);
                    let out = before.with_entry(patient_id@, entry@);
                    assert(entry_views(entries) =~= seq![entry@]);
                    assert(partition_views(parts) =~= out.partitions);
                }
                self.partitions = parts;
                true
            },
        }
    }
}

} // verus!
