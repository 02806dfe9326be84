//! Verification: a replay of the whole journal that checks every entry
//! against the entries before it and reports the first one that fails.

use vstd::prelude::*;
use crate::codec::header_spec;
use crate::entry::HeaderView;
use crate::entry::JournalEntryHeader;
use crate::error::VerifyError;
use crate::error::VerifyErrorView;
use crate::journal::EntryView;
use crate::journal::Journal;
use crate::journal::JournalView;
use crate::journal::PartitionView;
use crate::journal::PatientJournal;
use crate::journal::entry_views;
use crate::links::Indexed;
use crate::links::event_known;
use crate::links::find_digest;
use crate::links::has_event_before;
use crate::links::has_named_digest_before;
use crate::links::index_entries;
use crate::links::indexes;
use crate::links::named_digest_known;
use crate::links::parent_before;
use crate::text::same_text;

verus! {

/// What is wrong with the parent reference of the entry at index `i`, whose
/// header is `h`: nothing where it names no parent digest; else an earlier
/// entry must have that digest, and the parent file, where one is named, must
/// be an earlier entry with that digest.
pub open spec fn check_parent(entries: Seq<EntryView>, i: int, h: HeaderView) -> Option<
    VerifyErrorView,
> {
    match h.parent_hash {
        None => None,
        Some(hash) => match parent_before(entries, i, hash) {
            None => Some(
                VerifyErrorView::ParentNotFound {
                    entry_file: entries[i].filename,
                    parent_hash: hash,
                },
            ),
            Some(expected) => match h.parent_entry {
                None => None,
                Some(found) => if has_named_digest_before(entries, i, found, hash) {
                    None
                } else {
                    Some(
                        VerifyErrorView::BrokenChain {
                            entry_file: entries[i].filename,
                            expected,
                            found,
                        },
                    )
                },
            },
        },
    }
}

/// What is wrong with the entry at index `i` of a patient's partition, if
/// anything: it must read as a header, name the partition's patient, correct
/// only an event of an earlier entry, and have a sound parent reference.
pub open spec fn check_entry(patient_id: Seq<char>, entries: Seq<EntryView>, i: int) -> Option<
    VerifyErrorView,
> {
    match header_spec(entries[i].content) {
        Err(m) => Some(
            VerifyErrorView::InvalidEntry { entry_file: entries[i].filename, reason: m.message() },
        ),
        Ok(h) => if h.patient_id != patient_id {
            Some(
                VerifyErrorView::PatientMismatch {
                    entry_file: entries[i].filename,
                    expected: patient_id,
                    found: h.patient_id,
                },
            )
        } else if h.correction_of is Some && !has_event_before(entries, i, h.correction_of->0) {
            Some(
                VerifyErrorView::MissingCorrectionTarget {
                    entry_file: entries[i].filename,
                    correction_of: h.correction_of->0,
                },
            )
        } else {
            check_parent(entries, i, h)
        },
    }
}

/// The outcome of a scan: how many entries were looked at, the failing one
/// included, and what failed.
pub struct ReportView {
    pub entries_checked: nat,
    pub failure: Option<VerifyErrorView>,
}

/// The scan of the first `n` entries of a partition, in file-name order,
/// which stops at the first entry that fails.
pub open spec fn scan_partition(part: PartitionView, n: int) -> ReportView
    decreases n,
{
    if n <= 0 {
        ReportView { entries_checked: 0, failure: None }
    } else {
        let before = scan_partition(part, n - 1);
        if before.failure is Some {
            before
        } else {
            ReportView {
                entries_checked: before.entries_checked + 1,
                failure: check_entry(part.patient_id, part.entries, n - 1),
            }
        }
    }
}

/// The scan of a whole partition.
pub open spec fn verify_partition_spec(part: PartitionView) -> ReportView {
    scan_partition(part, part.entries.len() as int)
}

/// The scan of the first `n` partitions of a journal, which stops at the
/// first partition that fails.
pub open spec fn scan_journal(j: JournalView, n: int) -> ReportView
    decreases n,
{
    if n <= 0 {
        ReportView { entries_checked: 0, failure: None }
    } else {
        let before = scan_journal(j, n - 1);
        if before.failure is Some {
            before
        } else {
            let here = verify_partition_spec(j.partitions[n - 1]);
            ReportView {
                entries_checked: before.entries_checked + here.entries_checked,
                failure: here.failure,
            }
        }
    }
}

/// The verification of a journal; one that is missing fails as such.
pub open spec fn verify_spec(journal: Option<JournalView>) -> ReportView {
    match journal {
        None => ReportView { entries_checked: 0, failure: Some(VerifyErrorView::MissingJournal) },
        Some(j) => scan_journal(j, j.partitions.len() as int),
    }
}

/// The report of a verification.
#[derive(Debug, Clone)]
pub struct VerificationReport {
    /// The number of entries looked at, the failing one included.
    pub entries_checked: usize,
    /// The first failure; `None` where the journal is verified.
    pub failure: Option<VerifyError>,
}

impl VerificationReport {
    /// Whether the report is the outcome `expected`; a count beyond `usize`
    /// is reported as the largest `usize`.
    pub open spec fn reports(self, expected: ReportView) -> bool {
        &&& self.entries_checked == if expected.entries_checked <= usize::MAX {
            expected.entries_checked
        } else {
            usize::MAX as nat
        }
        &&& match self.failure {
            Some(f) => expected.failure == Some(f@),
            None => expected.failure is None,
        }
    }

    /// Whether every entry passed.
    pub fn is_verified(&self) -> (r: bool)
        ensures
            r == (self.failure is None),
    {
        self.failure.is_none()
    }
}

/// Checks the parent reference of the entry at index `i`.
fn check_parent_at(
    index: &Vec<Indexed>,
    i: usize,
    h: &JournalEntryHeader,
    Ghost(entries): Ghost<Seq<EntryView>>,
) -> (r: Option<VerifyError>)
    requires
        indexes(*index, entries),
        i < index.len(),
    ensures
        match r {
            Some(f) => check_parent(entries, i as int, h@) == Some(f@),
            None => check_parent(entries, i as int, h@) is None,
        },
{
    match &h.parent_hash {
        None => None,
        Some(hash) => match find_digest(index, i, hash.as_str(), Ghost(entries)) {
            None => Some(
                VerifyError::ParentNotFound {
                    entry_file: index[i].filename.clone(),
                    parent_hash: hash.clone(),
                },
            ),
            Some(k) => {
                match &h.parent_entry {
                    None => None,
                    Some(found) => if named_digest_known(
                        index,
                        i,
                        found.as_str(),
                        hash.as_str(),
                        Ghost(entries),
                    ) {
                        None
                    } else {
                        Some(
                            VerifyError::BrokenChain {
                                entry_file: index[i].filename.clone(),
                                expected: index[k].filename.clone(),
                                found: found.clone(),
                            },
                        )
                    },
                }
            },
        },
    }
}

/// Checks the entry at index `i` against the entries before it.
fn check_entry_at(
    patient_id: &str,
    index: &Vec<Indexed>,
    i: usize,
    Ghost(entries): Ghost<Seq<EntryView>>,
) -> (r: Option<VerifyError>)
    requires
        indexes(*index, entries),
        i < index.len(),
    ensures
        match r {
            Some(f) => check_entry(patient_id@, entries, i as int) == Some(f@),
            None => check_entry(patient_id@, entries, i as int) is None,
        },
{
    match &index[i].header {
        Err(m) => Some(
            VerifyError::InvalidEntry {
                entry_file: index[i].filename.clone(),
                reason: m.message(),
            },
        ),
        Ok(h) => {
            if !same_text(h.gitehr_patient_id.as_str(), patient_id) {
                return Some(
                    VerifyError::PatientMismatch {
                        entry_file: index[i].filename.clone(),
                        expected: patient_id.to_owned(),
                        found: h.gitehr_patient_id.clone(),
                    },
                );
            }
            match &h.correction_of {
                Some(c) => {
                    if !event_known(index, i, c.as_str(), Ghost(entries)) {
                        return Some(
                            VerifyError::MissingCorrectionTarget {
                                entry_file: index[i].filename.clone(),
                                correction_of: c.clone(),
                            },
                        );
                    }
                },
                None => {},
            }
            check_parent_at(index, i, h, Ghost(entries))
        },
    }
}

/// Verifies one partition: every entry, in file-name order, up to the first
/// that fails.
pub fn verify_partition(part: &PatientJournal) -> (r: VerificationReport)
    ensures
        r.reports(verify_partition_spec(part@)),
{
    let index = index_entries(&part.entries);
    let ghost entries = entry_views(part.entries);
    let mut i: usize = 0;
    while i < index.len()
        invariant
            i <= index.len(),
            entries == part@.entries,
            indexes(index, entries),
            scan_partition(part@, i as int) == (ReportView {
                entries_checked: i as nat,
                failure: None,
            }),
        decreases index.len() - i,
    {
        match check_entry_at(part.patient_id.as_str(), &index, i, Ghost(entries)) {
            Some(f) => {
                proof {
                    lemma_scan_partition_stops(part@, i + 1, part@.entries.len() as int);
                }
                return VerificationReport { entries_checked: i + 1, failure: Some(f) };
            },
            None => {},
        }
        i += 1;
    }
    VerificationReport { entries_checked: i, failure: None }
}

/// A scan that has failed within the first `k` entries is the scan of every
/// longer prefix.
pub proof fn lemma_scan_partition_stops(part: PartitionView, k: int, n: int)
    requires
        k <= n,
        scan_partition(part, k).failure is Some,
    ensures
        scan_partition(part, n) == scan_partition(part, k),
    decreases n - k,
{
    if k < n {
        lemma_scan_partition_stops(part, k, n - 1);
    }
}

/// A scan that has failed within the first `k` partitions is the scan of
/// every longer prefix.
pub proof fn lemma_scan_journal_stops(j: JournalView, k: int, n: int)
    requires
        k <= n,
        scan_journal(j, k).failure is Some,
    ensures
        scan_journal(j, n) == scan_journal(j, k),
    decreases n - k,
{
    if k < n {
        lemma_scan_journal_stops(j, k, n - 1);
    }
}

/// Verifies a journal: every partition in turn, and in each every entry in
/// file-name order, up to the first entry that fails. A journal that is
/// missing fails as such. Nothing is changed.
pub fn verify_journal(journal: Option<&Journal>) -> (r: VerificationReport)
    ensures
        r.reports(
            verify_spec(
                match journal {
                    Some(j) => Some(j@),
                    None => None,
                },
            ),
        ),
{
    match journal {
        None => VerificationReport {
            entries_checked: 0,
            failure: Some(VerifyError::MissingJournal),
        },
        Some(j) => {
            let n = j.partition_count();
            let mut total: usize = 0;
            let mut p: usize = 0;
            while p < n
                invariant
                    p <= n,
                    journal == Some(j),
                    n == j@.partitions.len(),
                    scan_journal(j@, p as int).failure is None,
                    total == if scan_journal(j@, p as int).entries_checked <= usize::MAX {
                        scan_journal(j@, p as int).entries_checked
                    } else {
                        usize::MAX as nat
                    },
                decreases n - p,
            {
                let here = verify_partition(j.partition_at(p));
                total = if here.entries_checked > usize::MAX - total {
                    usize::MAX
                } else {
                    total + here.entries_checked
                };
                if here.failure.is_some() {
                    proof {
                        lemma_scan_journal_stops(j@, p + 1, n as int);
                    }
                    return VerificationReport { entries_checked: total, failure: here.failure };
                }
                p += 1;
            }
            VerificationReport { entries_checked: total, failure: None }
        },
    }
}

} // verus!
