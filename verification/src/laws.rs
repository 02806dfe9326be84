//! What holds of the journal whatever is written to it.

use vstd::prelude::*;
use crate::codec::body_start;
use crate::codec::find_delim;
use crate::codec::header_spec;
use crate::digest::content_digest;
use crate::entry::HeaderView;
use crate::entry::RequestView;
use crate::error::JournalErrorView;
use crate::error::VerifyErrorView;
use crate::fs_layout::join_spec;
use crate::fs_layout::patient_journal_dir_spec;
use crate::journal::EntryView;
use crate::journal::JournalView;
use crate::journal::PartitionView;
use crate::journal::lemma_rank_from;
use crate::journal::lemma_rank_splits;
use crate::journal::lemma_with_entry_wf;
use crate::journal::rank;
use crate::links::entry_has_digest;
use crate::links::entry_has_event;
use crate::links::has_digest_before;
use crate::links::has_event;
use crate::links::has_event_before;
use crate::links::has_named_digest_before;
use crate::links::lemma_parent_before;
use crate::text::lemma_lex_irreflexive;
use crate::text::lemma_lex_prefix;
use crate::text::lex_lt;
use crate::timestamp::Moment;
use crate::timestamp::lemma_stamp_order;
use crate::verify::check_entry;
use crate::verify::lemma_scan_journal_stops;
use crate::verify::scan_journal;
use crate::verify::scan_partition;
use crate::verify::verify_spec;
use crate::writer::create_spec;
use crate::writer::entry_filename;
use crate::writer::header_for;
use crate::writer::latest_spec;

verus! {

/// Whether every entry of a partition passes its check.
pub open spec fn partition_passes(part: PartitionView) -> bool {
    forall|i: int|
        0 <= i < part.entries.len() ==> (#[trigger] check_entry(part.patient_id, part.entries, i))
            is None
}

/// The number of entries in the first `n` partitions.
pub open spec fn entry_count(j: JournalView, n: int) -> nat
    decreases n,
{
    if n <= 0 {
        0
    } else {
        entry_count(j, n - 1) + j.partitions[n - 1].entries.len()
    }
}

/// Whether a journal is verified: every entry of every partition passes.
pub open spec fn verified(j: JournalView) -> bool {
    verify_spec(Some(j)).failure is None
}

/// The scan of a prefix of a partition finds no failure exactly where every
/// entry of the prefix passes, and has then looked at all of them.
pub proof fn lemma_scan_partition_passes(part: PartitionView, n: int)
    requires
        0 <= n <= part.entries.len(),
    ensures
        scan_partition(part, n).failure is None <==> (forall|i: int|
            0 <= i < n ==> (#[trigger] check_entry(part.patient_id, part.entries, i)) is None),
        scan_partition(part, n).failure is None ==> scan_partition(part, n).entries_checked == n,
    decreases n,
{
    if n > 0 {
        lemma_scan_partition_passes(part, n - 1);
    }
}

/// The scan of a prefix of a journal finds no failure exactly where every
/// partition of the prefix passes, and has then looked at all their entries.
pub proof fn lemma_scan_journal_passes(j: JournalView, n: int)
    requires
        0 <= n <= j.partitions.len(),
    ensures
        scan_journal(j, n).failure is None <==> (forall|p: int|
            0 <= p < n ==> partition_passes(#[trigger] j.partitions[p])),
        scan_journal(j, n).failure is None ==> scan_journal(j, n).entries_checked == entry_count(
            j,
            n,
        ),
    decreases n,
{
    if n > 0 {
        lemma_scan_journal_passes(j, n - 1);
        let part = j.partitions[n - 1];
        lemma_scan_partition_passes(part, part.entries.len() as int);
    }
}

/// A journal is verified exactly where every entry of every partition
/// passes; the report then counts every entry.
pub proof fn lemma_verified(j: JournalView)
    ensures
        verified(j) <==> (forall|p: int|
            0 <= p < j.partitions.len() ==> partition_passes(#[trigger] j.partitions[p])),
        verified(j) ==> verify_spec(Some(j)).entries_checked == entry_count(
            j,
            j.partitions.len() as int,
        ),
{
    lemma_scan_journal_passes(j, j.partitions.len() as int);
}

/// Journals whose first `n` partitions have the same lengths hold the same
/// number of entries there.
proof fn lemma_entry_count_same(a: JournalView, b: JournalView, n: int)
    requires
        0 <= n <= a.partitions.len(),
        n <= b.partitions.len(),
        forall|p: int|
            0 <= p < n ==> (#[trigger] a.partitions[p]).entries.len() == b.partitions[p].entries.len(),
    ensures
        entry_count(a, n) == entry_count(b, n),
    decreases n,
{
    if n > 0 {
        lemma_entry_count_same(a, b, n - 1);
    }
}

/// A journal in which one of the first `n` partitions has one entry more
/// holds one entry more there.
proof fn lemma_entry_count_grows(a: JournalView, b: JournalView, k: int, n: int)
    requires
        0 <= k < n <= a.partitions.len(),
        n <= b.partitions.len(),
        forall|p: int|
            0 <= p < n && p != k ==> (#[trigger] a.partitions[p]).entries.len()
                == b.partitions[p].entries.len(),
        b.partitions[k].entries.len() == a.partitions[k].entries.len() + 1,
    ensures
        entry_count(b, n) == entry_count(a, n) + 1,
    decreases n,
{
    if n - 1 == k {
        lemma_entry_count_same(a, b, n - 1);
    } else {
        lemma_entry_count_grows(a, b, k, n - 1);
    }
}

/// Where an entry is put into a sequence at index `r`, the entry that was at
/// index `i` is found at this index.
pub open spec fn shifted(i: int, r: int) -> int {
    if i < r {
        i
    } else {
        i + 1
    }
}

/// An entry that passed its check still passes after another entry has been
/// put into the partition, wherever it was put.
proof fn lemma_check_after_insert(
    patient_id: Seq<char>,
    entries: Seq<EntryView>,
    r: int,
    e: EntryView,
    i: int,
)
    requires
        0 <= r <= entries.len(),
        0 <= i < entries.len(),
        check_entry(patient_id, entries, i) is None,
    ensures
        check_entry(patient_id, entries.insert(r, e), shifted(i, r)) is None,
{
    let after = entries.insert(r, e);
    let at = shifted(i, r);
    let h = header_spec(entries[i].content)->Ok_0;
    if h.correction_of is Some {
        let c = h.correction_of->0;
        let k = choose|k: int|
            0 <= k < i && k < entries.len() && entry_has_event(#[trigger] entries[k], c);
        assert(entry_has_event(after[shifted(k, r)], c));
    }
    if h.parent_hash is Some {
        let hash = h.parent_hash->0;
        lemma_parent_before(entries, i, hash);
        let k = choose|k: int|
            0 <= k < i && k < entries.len() && entry_has_digest(#[trigger] entries[k], hash);
        assert(entry_has_digest(after[shifted(k, r)], hash));
        lemma_parent_before(after, at, hash);
        if h.parent_entry is Some {
            let name = h.parent_entry->0;
            let m = choose|m: int|
                0 <= m < i && m < entries.len() && (#[trigger] entries[m]).filename == name
                    && entry_has_digest(entries[m], hash);
            assert(after[shifted(m, r)].filename == name && entry_has_digest(
                after[shifted(m, r)],
                hash,
            ));
        }
    }
}

/// An entry that is put into a partition passes its check where it reads as
/// a header of the partition's patient whose references are met by the
/// entries before it.
proof fn lemma_new_entry_passes(
    patient_id: Seq<char>,
    entries: Seq<EntryView>,
    r: int,
    e: EntryView,
    h: HeaderView,
)
    requires
        0 <= r <= entries.len(),
        header_spec(e.content) == Ok::<HeaderView, crate::codec::MalformedView>(h),
        h.patient_id == patient_id,
        h.correction_of is Some ==> has_event_before(entries, r, h.correction_of->0),
        h.parent_hash is Some ==> has_digest_before(entries, r, h.parent_hash->0),
        h.parent_hash is Some && h.parent_entry is Some ==> has_named_digest_before(
            entries,
            r,
            h.parent_entry->0,
            h.parent_hash->0,
        ),
    ensures
        check_entry(patient_id, entries.insert(r, e), r) is None,
{
    let after = entries.insert(r, e);
    if h.correction_of is Some {
        let c = h.correction_of->0;
        let k = choose|k: int|
            0 <= k < r && k < entries.len() && entry_has_event(#[trigger] entries[k], c);
        assert(entry_has_event(after[k], c));
    }
    if h.parent_hash is Some {
        let hash = h.parent_hash->0;
        let k = choose|k: int|
            0 <= k < r && k < entries.len() && entry_has_digest(#[trigger] entries[k], hash);
        assert(entry_has_digest(after[k], hash));
        lemma_parent_before(after, r, hash);
        if h.parent_entry is Some {
            let name = h.parent_entry->0;
            let m = choose|m: int|
                0 <= m < r && m < entries.len() && (#[trigger] entries[m]).filename == name
                    && entry_has_digest(entries[m], hash);
            assert(after[m].filename == name && entry_has_digest(after[m], hash));
        }
    }
}

/// A file name that sorts after every entry belongs at the end.
pub proof fn lemma_rank_of_greatest(entries: Seq<EntryView>, name: Seq<char>)
    requires
        forall|i: int| 0 <= i < entries.len() ==> lex_lt((#[trigger] entries[i]).filename, name),
    ensures
        rank(entries, name) == entries.len(),
{
    lemma_rank_from(entries, name, 0);
}

/// Whether a new file name sorts after every entry that the patient has.
pub open spec fn is_newest(j: JournalView, patient_id: Seq<char>, filename: Seq<char>) -> bool {
    forall|i: int|
        0 <= i < j.entries_of(patient_id).len() ==> lex_lt(
            (#[trigger] j.entries_of(patient_id)[i]).filename,
            filename,
        )
}

/// Writing an entry to a verified journal leaves it verified, with one entry
/// more, where the new entry refers to nothing, or where its file name sorts
/// after the patient's other entries and the parent digest that it names, if
/// any, is that of one of them.
pub proof fn lemma_create_keeps_verified(j: JournalView, req: RequestView, event_id: Seq<char>)
    requires
        j.wf(),
        verified(j),
        create_spec(j, req, event_id) is Ok,
        req.correction_of is Some || req.parent_hash is Some ==> is_newest(
            j,
            req.patient_id,
            entry_filename(req.recorded_at, event_id),
        ),
        req.parent_hash is Some ==> has_digest_before(
            j.entries_of(req.patient_id),
            j.entries_of(req.patient_id).len() as int,
            req.parent_hash->0,
        ),
    ensures
        verified(j.with_entry(req.patient_id, create_spec(j, req, event_id)->Ok_0)),
        verify_spec(
            Some(j.with_entry(req.patient_id, create_spec(j, req, event_id)->Ok_0)),
        ).entries_checked == verify_spec(Some(j)).entries_checked + 1,
{
    let pid = req.patient_id;
    let e = create_spec(j, req, event_id)->Ok_0;
    let entries = j.entries_of(pid);
    let h = header_for(req, event_id, entries);
    let after = j.with_entry(pid, e);
    let n = entries.len() as int;
    lemma_verified(j);
    lemma_verified(after);
    let r = rank(entries, e.filename);
    if j.has_partition(pid) {
        let p = j.partition_index(pid);
        lemma_rank_splits(entries, e.filename);
        if h.parent_hash is Some {
            lemma_parent_before(entries, n, h.parent_hash->0);
        }
        lemma_new_entry_passes(pid, entries, r, e, h);
        let part = after.partitions[p];
        assert forall|i: int| 0 <= i < part.entries.len() implies (#[trigger] check_entry(
            part.patient_id,
            part.entries,
            i,
        )) is None by {
            if i < r {
                lemma_check_after_insert(pid, entries, r, e, i);
            } else if i > r {
                lemma_check_after_insert(pid, entries, r, e, i - 1);
            }
        }
        lemma_entry_count_grows(j, after, p, j.partitions.len() as int);
    } else {
        let k = j.partitions.len() as int;
        lemma_entry_count_same(j, after, k);
    }
}

/// After an entry has been added, the patient's entries are the former ones
/// with the new one at its rank, and every other patient's entries are as
/// they were.
pub proof fn lemma_with_entry_entries(j: JournalView, patient_id: Seq<char>, e: EntryView)
    requires
        j.wf(),
    ensures
        j.with_entry(patient_id, e).entries_of(patient_id) == j.entries_of(patient_id).insert(
            rank(j.entries_of(patient_id), e.filename),
            e,
        ),
        forall|other: Seq<char>|
            other != patient_id ==> #[trigger] j.with_entry(patient_id, e).entries_of(other)
                == j.entries_of(other),
{
    let after = j.with_entry(patient_id, e);
    if j.has_partition(patient_id) {
        let p = j.partition_index(patient_id);
        assert(after.is_partition_of(p, patient_id));
        let q = after.partition_index(patient_id);
        assert forall|other: Seq<char>| other != patient_id implies #[trigger] after.entries_of(
            other,
        ) == j.entries_of(other) by {
            if j.has_partition(other) {
                let a = j.partition_index(other);
                assert(after.is_partition_of(a, other));
                let b = after.partition_index(other);
            } else if after.has_partition(other) {
                let b = after.partition_index(other);
                assert(j.is_partition_of(b, other));
            }
        }
    } else {
        let k = j.partitions.len() as int;
        assert(after.is_partition_of(k, patient_id));
        let q = after.partition_index(patient_id);
        if q < k {
            assert(j.is_partition_of(q, patient_id));
        }
        assert forall|other: Seq<char>| other != patient_id implies #[trigger] after.entries_of(
            other,
        ) == j.entries_of(other) by {
            if j.has_partition(other) {
                let a = j.partition_index(other);
                assert(after.is_partition_of(a, other));
                let b = after.partition_index(other);
            } else if after.has_partition(other) {
                let b = after.partition_index(other);
                assert(j.is_partition_of(b, other));
            }
        }
    }
}

/// The entry that a successful request stores reads back as the request: the
/// same patient, time, author, context, links, codes, correction and parent
/// digest, under the event id given, with the same body.
pub proof fn lemma_created_reads_back(j: JournalView, req: RequestView, event_id: Seq<char>)
    requires
        create_spec(j, req, event_id) is Ok,
    ensures
        ({
            let e = create_spec(j, req, event_id)->Ok_0;
            let decoded = crate::codec::decode_spec(e.content);
            let (header, body) = decoded->Ok_0;
            &&& decoded is Ok
            &&& body == req.body
            &&& header.event_id == event_id
            &&& header.patient_id == req.patient_id
            &&& header.recorded_at == req.recorded_at
            &&& header.author == req.author
            &&& header.context == req.context
            &&& header.links == req.links
            &&& header.codes == req.codes
            &&& header.correction_of == req.correction_of
            &&& header.parent_hash == req.parent_hash
            &&& e.filename == entry_filename(req.recorded_at, event_id)
        }),
{
}

/// A request without a patient id fails as such, and so does one without
/// the author's id or name: both are faults of the request, found whatever
/// the journal holds.
pub proof fn lemma_create_validates(j: JournalView, req: RequestView, event_id: Seq<char>)
    ensures
        req.patient_id.len() == 0 ==> create_spec(j, req, event_id) == Err::<
            EntryView,
            JournalErrorView,
        >(JournalErrorView::MissingPatientId),
        req.patient_id.len() > 0 && (req.author.id.len() == 0 || req.author.name.len() == 0)
            ==> create_spec(j, req, event_id) == Err::<EntryView, JournalErrorView>(
            JournalErrorView::MissingAuthor,
        ),
        create_spec(j, req, event_id) is Err && create_spec(j, req, event_id)->Err_0.is_validation()
            <==> req.patient_id.len() == 0 || req.author.id.len() == 0 || req.author.name.len()
            == 0,
{
}

/// A valid request to correct an event that no entry of the patient has
/// fails for want of the target.
pub proof fn lemma_create_needs_target(j: JournalView, req: RequestView, event_id: Seq<char>)
    requires
        req.patient_id.len() > 0,
        req.author.id.len() > 0,
        req.author.name.len() > 0,
        req.correction_of is Some,
    ensures
        !has_event(j.entries_of(req.patient_id), req.correction_of->0) <==> create_spec(
            j,
            req,
            event_id,
        ) == Err::<EntryView, JournalErrorView>(
            JournalErrorView::MissingCorrectionTarget { correction_of: req.correction_of->0 },
        ),
{
}

/// A patient without entries has no latest entry.
pub proof fn lemma_latest_of_none(j: JournalView, root: Seq<char>, patient_id: Seq<char>)
    ensures
        !j.has_partition(patient_id) ==> latest_spec(j, root, patient_id) is None,
        j.entries_of(patient_id).len() == 0 <==> latest_spec(j, root, patient_id) is None,
{
}

/// The latest entry is the one whose file name sorts last.
pub proof fn lemma_latest_is_greatest(j: JournalView, root: Seq<char>, patient_id: Seq<char>, i: int)
    requires
        j.wf(),
        0 <= i < j.entries_of(patient_id).len(),
    ensures
        latest_spec(j, root, patient_id) is Some,
        ({
            let (latest_name, _, _) = latest_spec(j, root, patient_id)->Some_0;
            let name = j.entries_of(patient_id)[i].filename;
            &&& name == latest_name || lex_lt(name, latest_name)
            &&& name == latest_name <==> i == j.entries_of(patient_id).len() - 1
        }),
{
    let entries = j.entries_of(patient_id);
    let last = entries.len() - 1;
    if i < last {
        lemma_lex_irreflexive(entries[last].filename);
    }
}

/// After a successful request whose file name sorts after the patient's
/// other entries, the latest entry of that patient is the one just written,
/// with the digest of its content.
pub proof fn lemma_latest_after_create(
    j: JournalView,
    root: Seq<char>,
    req: RequestView,
    event_id: Seq<char>,
)
    requires
        j.wf(),
        create_spec(j, req, event_id) is Ok,
        is_newest(j, req.patient_id, entry_filename(req.recorded_at, event_id)),
    ensures
        ({
            let e = create_spec(j, req, event_id)->Ok_0;
            latest_spec(j.with_entry(req.patient_id, e), root, req.patient_id) == Some(
                (
                    e.filename,
                    content_digest(e.content),
                    join_spec(patient_journal_dir_spec(root, req.patient_id), e.filename),
                ),
            )
        }),
{
    let e = create_spec(j, req, event_id)->Ok_0;
    let entries = j.entries_of(req.patient_id);
    lemma_with_entry_entries(j, req.patient_id, e);
    lemma_rank_of_greatest(entries, e.filename);
}

/// Entries of one time with distinct event ids have distinct file names.
pub proof fn lemma_distinct_ids_distinct_names(at: Moment, a: Seq<char>, b: Seq<char>)
    requires
        a != b,
    ensures
        entry_filename(at, a) != entry_filename(at, b),
{
    reveal_strlit("--");
    let x = entry_filename(at, a);
    let y = entry_filename(at, b);
    assert(x.subrange(22, 22 + a.len() as int) =~= a);
    assert(y.subrange(22, 22 + b.len() as int) =~= b);
}

/// Of two entries the one recorded earlier has the file name that sorts
/// first, whatever their event ids.
pub proof fn lemma_filename_order(a: Moment, a_id: Seq<char>, b: Moment, b_id: Seq<char>)
    requires
        a.valid(),
        b.valid(),
        a.before(b),
    ensures
        lex_lt(entry_filename(a, a_id), entry_filename(b, b_id)),
{
    lemma_stamp_order(a, b, '-');
    let s = "--"@ + a_id + ".md"@;
    let t = "--"@ + b_id + ".md"@;
    lemma_lex_prefix(a.file_stamp(), b.file_stamp(), s, t);
    assert(entry_filename(a, a_id) =~= a.file_stamp() + s);
    assert(entry_filename(b, b_id) =~= b.file_stamp() + t);
}

/// Two entries written one after the other for one patient, the second
/// naming the digest of the first as its parent and sorting after the
/// patient's other entries, leave a verified journal verified, with two
/// entries more. The first must keep the journal verified by itself: it
/// refers to nothing, or sorts after the patient's other entries.
pub proof fn lemma_chain_verifies(
    j: JournalView,
    a: RequestView,
    a_id: Seq<char>,
    b: RequestView,
    b_id: Seq<char>,
)
    requires
        j.wf(),
        verified(j),
        create_spec(j, a, a_id) is Ok,
        a.parent_hash is None,
        a.correction_of is Some ==> is_newest(j, a.patient_id, entry_filename(a.recorded_at, a_id)),
        b.patient_id == a.patient_id,
        create_spec(j.with_entry(a.patient_id, create_spec(j, a, a_id)->Ok_0), b, b_id) is Ok,
        b.parent_hash == Some(content_digest(create_spec(j, a, a_id)->Ok_0.content)),
        is_newest(
            j.with_entry(a.patient_id, create_spec(j, a, a_id)->Ok_0),
            b.patient_id,
            entry_filename(b.recorded_at, b_id),
        ),
    ensures
        ({
            let first = create_spec(j, a, a_id)->Ok_0;
            let j1 = j.with_entry(a.patient_id, first);
            let second = create_spec(j1, b, b_id)->Ok_0;
            let j2 = j1.with_entry(b.patient_id, second);
            &&& verified(j2)
            &&& verify_spec(Some(j2)).entries_checked == verify_spec(Some(j)).entries_checked + 2
            &&& crate::codec::header_spec(second.content)->Ok_0.parent_hash == Some(
                content_digest(first.content),
            )
            &&& crate::codec::header_spec(second.content)->Ok_0.parent_entry is Some
        }),
{
    let first = create_spec(j, a, a_id)->Ok_0;
    let j1 = j.with_entry(a.patient_id, first);
    lemma_create_keeps_verified(j, a, a_id);
    lemma_with_entry_wf(j, a.patient_id, first);
    lemma_with_entry_entries(j, a.patient_id, first);
    let entries = j.entries_of(a.patient_id);
    let r = rank(entries, first.filename);
    lemma_rank_from(entries, first.filename, 0);
    let entries1 = j1.entries_of(a.patient_id);
    assert(entry_has_digest(entries1[r], b.parent_hash->0));
    lemma_create_keeps_verified(j1, b, b_id);
    lemma_parent_before(entries1, entries1.len() as int, b.parent_hash->0);
}

/// A search for the delimiter that succeeds within the first `m` characters
/// finds the same in every text with the same first `m` characters.
proof fn lemma_find_delim_prefix(s: Seq<char>, t: Seq<char>, from: int, m: int)
    requires
        0 <= from,
        m <= s.len(),
        m <= t.len(),
        forall|k: int| 0 <= k < m ==> s[k] == t[k],
        find_delim(s, from) is Some,
        find_delim(s, from)->0 + 3 <= m,
    ensures
        find_delim(t, from) == find_delim(s, from),
    decreases s.len() - from,
{
    if from + 3 <= s.len() && !crate::codec::delim_at(s, from) {
        lemma_find_delim_prefix(s, t, from + 1, m);
        lemma_find_delim_range(s, from + 1);
    }
}

/// A delimiter that is found lies at or after the start of the search.
proof fn lemma_find_delim_range(s: Seq<char>, from: int)
    requires
        0 <= from,
        find_delim(s, from) is Some,
    ensures
        from <= find_delim(s, from)->0,
        find_delim(s, from)->0 + 3 <= s.len(),
    decreases s.len() - from,
{
    if from + 3 <= s.len() && !crate::codec::delim_at(s, from) {
        lemma_find_delim_range(s, from + 1);
    }
}

/// Changing one character of the body of a stored entry leaves its header
/// as it was.
pub proof fn lemma_body_change_keeps_header(content: Seq<char>, i: int, c: char)
    requires
        body_start(content) is Some,
        body_start(content)->0 <= i < content.len(),
    ensures
        header_spec(content.update(i, c)) == header_spec(content),
{
    let changed = content.update(i, c);
    let a = find_delim(content, 0)->0;
    lemma_find_delim_range(content, a + 3);
    let b = find_delim(content, a + 3)->0;
    lemma_find_delim_prefix(content, changed, 0, i);
    lemma_find_delim_prefix(content, changed, a + 3, i);
    assert(changed.subrange(a + 3, b) =~= content.subrange(a + 3, b));
}

/// A journal in which the content of one entry has been replaced.
pub open spec fn with_content(j: JournalView, p: int, a: int, content: Seq<char>) -> JournalView {
    JournalView {
        partitions: j.partitions.update(
            p,
            PartitionView {
                patient_id: j.partitions[p].patient_id,
                entries: j.partitions[p].entries.update(
                    a,
                    EntryView { filename: j.partitions[p].entries[a].filename, content },
                ),
            },
        ),
    }
}

/// Whether a failure is one of a parent reference.
pub open spec fn is_link_failure(f: VerifyErrorView) -> bool {
    f is ParentNotFound || f is BrokenChain
}

/// Journals with the same first `n` partitions scan alike there.
proof fn lemma_scan_journal_same(a: JournalView, b: JournalView, n: int)
    requires
        0 <= n <= a.partitions.len(),
        n <= b.partitions.len(),
        forall|q: int| 0 <= q < n ==> a.partitions[q] == b.partitions[q],
    ensures
        scan_journal(a, n) == scan_journal(b, n),
    decreases n,
{
    if n > 0 {
        lemma_scan_journal_same(a, b, n - 1);
    }
}

/// Where every entry of a prefix passes or fails for its parent reference,
/// the scan of the prefix finds nothing or such a failure.
proof fn lemma_scan_link_failure(part: PartitionView, n: int)
    requires
        0 <= n <= part.entries.len(),
        forall|i: int|
            0 <= i < n ==> (#[trigger] check_entry(part.patient_id, part.entries, i)) is None
                || is_link_failure(check_entry(part.patient_id, part.entries, i)->0),
    ensures
        scan_partition(part, n).failure is None || is_link_failure(
            scan_partition(part, n).failure->0,
        ),
    decreases n,
{
    if n > 0 {
        lemma_scan_link_failure(part, n - 1);
    }
}

/// Changing the body of an entry so that its digest changes is found out:
/// where a later entry of the partition names the entry as its parent, by
/// digest and by file name, verification of the journal, which was verified
/// before, now fails, and what it reports is a failure of a parent reference.
pub proof fn lemma_tamper_detected(j: JournalView, p: int, a: int, b: int, changed: Seq<char>)
    requires
        j.wf(),
        verified(j),
        0 <= p < j.partitions.len(),
        0 <= a < b < j.partitions[p].entries.len(),
        header_spec(changed) == header_spec(j.partitions[p].entries[a].content),
        content_digest(changed) != content_digest(j.partitions[p].entries[a].content),
        header_spec(j.partitions[p].entries[b].content) is Ok,
        header_spec(j.partitions[p].entries[b].content)->Ok_0.parent_hash == Some(
            content_digest(j.partitions[p].entries[a].content),
        ),
        header_spec(j.partitions[p].entries[b].content)->Ok_0.parent_entry == Some(
            j.partitions[p].entries[a].filename,
        ),
    ensures
        verify_spec(Some(with_content(j, p, a, changed))).failure is Some,
        is_link_failure(verify_spec(Some(with_content(j, p, a, changed))).failure->0),
{
    let after = with_content(j, p, a, changed);
    let part = j.partitions[p];
    let entries = part.entries;
    let pid = part.patient_id;
    let part2 = after.partitions[p];
    let entries2 = part2.entries;
    let n = entries.len() as int;
    let hash = content_digest(entries[a].content);
    lemma_verified(j);
    // Every entry reads as the same header as before.
    // So every entry passes as before, but for its parent reference.
    assert forall|i: int| 0 <= i < n implies (#[trigger] check_entry(pid, entries2, i)) is None
        || is_link_failure(check_entry(pid, entries2, i)->0) by {
        assert(check_entry(pid, entries, i) is None);
        let h = header_spec(entries[i].content)->Ok_0;
        if h.correction_of is Some {
            let c = h.correction_of->0;
            let k = choose|k: int|
                0 <= k < i && k < entries.len() && entry_has_event(#[trigger] entries[k], c);
            assert(entry_has_event(entries2[k], c));
        }
    }
    // The entry that names the changed one fails.
    if has_named_digest_before(entries2, b, entries[a].filename, hash) {
        lemma_lex_irreflexive(entries[a].filename);
    }
    assert(check_entry(pid, entries2, b) is Some);
    lemma_scan_partition_passes(part2, n);
    lemma_scan_link_failure(part2, n);
    // The partitions before are as they were.
    lemma_scan_journal_passes(j, p);
    lemma_scan_journal_same(j, after, p);
    lemma_scan_journal_stops(after, p + 1, after.partitions.len() as int);
}

/// The same, for a change of one character of the body.
pub proof fn lemma_body_tamper_detected(j: JournalView, p: int, a: int, b: int, i: int, c: char)
    requires
        j.wf(),
        verified(j),
        0 <= p < j.partitions.len(),
        0 <= a < b < j.partitions[p].entries.len(),
        body_start(j.partitions[p].entries[a].content) is Some,
        body_start(j.partitions[p].entries[a].content)->0 <= i
            < j.partitions[p].entries[a].content.len(),
        content_digest(j.partitions[p].entries[a].content.update(i, c)) != content_digest(
            j.partitions[p].entries[a].content,
        ),
        header_spec(j.partitions[p].entries[b].content) is Ok,
        header_spec(j.partitions[p].entries[b].content)->Ok_0.parent_hash == Some(
            content_digest(j.partitions[p].entries[a].content),
        ),
        header_spec(j.partitions[p].entries[b].content)->Ok_0.parent_entry == Some(
            j.partitions[p].entries[a].filename,
        ),
    ensures
        verify_spec(
            Some(with_content(j, p, a, j.partitions[p].entries[a].content.update(i, c))),
        ).failure is Some,
        is_link_failure(
            verify_spec(
                Some(with_content(j, p, a, j.partitions[p].entries[a].content.update(i, c))),
            ).failure->0,
        ),
{
    lemma_body_change_keeps_header(j.partitions[p].entries[a].content, i, c);
    lemma_tamper_detected(j, p, a, b, j.partitions[p].entries[a].content.update(i, c));
}

/// Whether no two entries that read as entries have one event id.
pub open spec fn event_ids_distinct(entries: Seq<EntryView>) -> bool {
    forall|i: int, j: int|
        0 <= i < j < entries.len() && (#[trigger] header_spec(entries[i].content)) is Ok && (
        #[trigger] header_spec(entries[j].content)) is Ok ==> header_spec(
            entries[i].content,
        )->Ok_0.event_id != header_spec(entries[j].content)->Ok_0.event_id
}

/// Writing an entry keeps the event ids of a patient's entries distinct.
pub proof fn lemma_create_keeps_event_ids_distinct(
    j: JournalView,
    req: RequestView,
    event_id: Seq<char>,
)
    requires
        j.wf(),
        create_spec(j, req, event_id) is Ok,
        event_ids_distinct(j.entries_of(req.patient_id)),
    ensures
        event_ids_distinct(
            j.with_entry(req.patient_id, create_spec(j, req, event_id)->Ok_0).entries_of(
                req.patient_id,
            ),
        ),
{
    let e = create_spec(j, req, event_id)->Ok_0;
    let entries = j.entries_of(req.patient_id);
    lemma_with_entry_entries(j, req.patient_id, e);
    lemma_rank_from(entries, e.filename, 0);
}

/// Whether an entry lies in the file that its header names: it reads as an
/// entry of a valid time, and its file name is the one of that time and of
/// its event id.
pub open spec fn well_named(e: EntryView) -> bool {
    match header_spec(e.content) {
        Ok(h) => h.recorded_at.valid() && e.filename == entry_filename(h.recorded_at, h.event_id),
        Err(_) => false,
    }
}

/// Whether every entry lies in the file that its header names and was
/// recorded before `at`.
pub open spec fn recorded_before(entries: Seq<EntryView>, at: Moment) -> bool {
    forall|i: int|
        0 <= i < entries.len() ==> well_named(#[trigger] entries[i]) && header_spec(
            entries[i].content,
        )->Ok_0.recorded_at.before(at)
}

/// The entry that a successful request stores lies in the file that its
/// header names.
pub proof fn lemma_created_is_well_named(j: JournalView, req: RequestView, event_id: Seq<char>)
    requires
        req.recorded_at.valid(),
        create_spec(j, req, event_id) is Ok,
    ensures
        well_named(create_spec(j, req, event_id)->Ok_0),
        header_spec(create_spec(j, req, event_id)->Ok_0.content)->Ok_0.recorded_at
            == req.recorded_at,
{
}

/// An entry that is recorded after all the entries that a patient has is
/// the newest by file name too, whatever its event id: for a writer whose
/// times of recording increase, the order of the files is the order of
/// writing.
pub proof fn lemma_later_is_newest(j: JournalView, req: RequestView, event_id: Seq<char>)
    requires
        req.recorded_at.valid(),
        recorded_before(j.entries_of(req.patient_id), req.recorded_at),
    ensures
        is_newest(j, req.patient_id, entry_filename(req.recorded_at, event_id)),
{
    let entries = j.entries_of(req.patient_id);
    assert forall|i: int| 0 <= i < entries.len() implies lex_lt(
        (#[trigger] entries[i]).filename,
        entry_filename(req.recorded_at, event_id),
    ) by {
        let h = header_spec(entries[i].content)->Ok_0;
        lemma_filename_order(h.recorded_at, h.event_id, req.recorded_at, event_id);
    }
}

/// Two entries of one time and of distinct event ids that refer to nothing
/// lie in distinct files, and leave a verified journal verified, with two
/// entries more, whichever way their file names sort.
pub proof fn lemma_same_time_entries_verify(
    j: JournalView,
    a: RequestView,
    a_id: Seq<char>,
    b: RequestView,
    b_id: Seq<char>,
)
    requires
        j.wf(),
        verified(j),
        a.recorded_at == b.recorded_at,
        a.patient_id == b.patient_id,
        a_id != b_id,
        a.correction_of is None && a.parent_hash is None,
        b.correction_of is None && b.parent_hash is None,
        create_spec(j, a, a_id) is Ok,
        create_spec(j.with_entry(a.patient_id, create_spec(j, a, a_id)->Ok_0), b, b_id) is Ok,
    ensures
        ({
            let first = create_spec(j, a, a_id)->Ok_0;
            let j1 = j.with_entry(a.patient_id, first);
            let second = create_spec(j1, b, b_id)->Ok_0;
            let j2 = j1.with_entry(b.patient_id, second);
            &&& first.filename != second.filename
            &&& verified(j2)
            &&& verify_spec(Some(j2)).entries_checked == verify_spec(Some(j)).entries_checked + 2
        }),
{
    let first = create_spec(j, a, a_id)->Ok_0;
    let j1 = j.with_entry(a.patient_id, first);
    lemma_distinct_ids_distinct_names(a.recorded_at, a_id, b_id);
    lemma_create_keeps_verified(j, a, a_id);
    lemma_with_entry_wf(j, a.patient_id, first);
    lemma_create_keeps_verified(j1, b, b_id);
}

} // verus!
