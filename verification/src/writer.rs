//! Writing entries: validation, the file name, the links to earlier entries,
//! and the check that what is stored reads back as what was asked for.

use vstd::prelude::*;
use crate::codec::decode_entry;
use crate::codec::decode_spec;
use crate::codec::encode_entry;
use crate::codec::encode_spec;
use crate::digest::content_digest;
use crate::digest::digest_of;
use crate::entry::HeaderView;
use crate::entry::JournalEntryHeader;
use crate::entry::JournalEntryInput;
use crate::entry::LatestJournalEntry;
use crate::entry::RequestView;
use crate::error::JournalError;
use crate::error::JournalErrorView;
use crate::fs_layout::FsLayout;
use crate::fs_layout::default_root;
use crate::fs_layout::join_path;
use crate::fs_layout::join_spec;
use crate::fs_layout::patient_journal_dir_spec;
use crate::journal::EntryView;
use crate::journal::Journal;
use crate::journal::JournalView;
use crate::journal::StoredEntry;
use crate::journal::has_file;
use crate::links::Indexed;
use crate::links::event_known;
use crate::links::find_digest;
use crate::links::has_event;
use crate::links::index_entries;
use crate::links::indexes;
use crate::links::resolve_parent;
use crate::text::is_lower_hex;
use crate::text::joined;
use crate::text::same_text;
use crate::timestamp::Moment;
use crate::timestamp::Timestamp;

verus! {

/// The name of an entry's file: the time of recording, `--`, the event id,
/// and the extension `.md`.
pub open spec fn entry_filename(at: Moment, event_id: Seq<char>) -> Seq<char> {
    at.file_stamp() + "--"@ + event_id + ".md"@
}

/// The name of an entry's file.
pub fn filename_for(at: &Timestamp, event_id: &str) -> (r: String)
    ensures
        r@ == entry_filename(at@, event_id@),
{
    let stamp = at.file_stamp();
    let a = joined(stamp.as_str(), "--");
    let b = joined(a.as_str(), event_id);
    joined(b.as_str(), ".md")
}

/// An event id as the library makes one: `c` and 32 lowercase hexadecimal digits.
pub open spec fn is_generated_id(id: Seq<char>) -> bool {
    &&& id.len() == 33
    &&& id[0] == 'c'
    &&& forall|i: int| 1 <= i < 33 ==> is_lower_hex(#[trigger] id[i])
}

/// `uuid::Uuid::new_v4`, written in its `simple` form: 32 lowercase
/// hexadecimal digits, whatever the random bits are.
#[verifier::external_body]
fn random_uuid_simple() -> (r: String)
    ensures
        r@.len() == 32,
        forall|i: int| 0 <= i < 32 ==> is_lower_hex(#[trigger] r@[i]),
{
    uuid::Uuid::new_v4().simple().to_string()
}

/// A new event id.
pub fn fresh_event_id() -> (r: String)
    ensures
        is_generated_id(r@),
{
    let tail = random_uuid_simple();
    proof {
        reveal_strlit("c");
    }
    let id = joined("c", tail.as_str());
    assert forall|i: int| 1 <= i < 33 implies is_lower_hex(#[trigger] id@[i]) by {
    }
    id
}

/// The header of the entry that a request asks for, among the entries that
/// the patient has: the parent file is the first entry with the parent
/// digest, and unset where none has it.
pub open spec fn header_for(req: RequestView, event_id: Seq<char>, entries: Seq<EntryView>) -> HeaderView {
    HeaderView {
        event_id,
        patient_id: req.patient_id,
        recorded_at: req.recorded_at,
        author: req.author,
        context: req.context,
        links: req.links,
        codes: req.codes,
        correction_of: req.correction_of,
        parent_hash: req.parent_hash,
        parent_entry: match req.parent_hash {
            Some(hash) => resolve_parent(entries, hash),
            None => None,
        },
    }
}

/// What a stored text must read as to count as written.
pub open spec fn reads_back(content: Seq<char>, header: HeaderView, body: Seq<char>) -> bool {
    decode_spec(content) == Ok::<(HeaderView, Seq<char>), crate::codec::MalformedView>(
        (header, body),
    )
}

/// The entry that a request adds to a journal under the event id `event_id`,
/// or why it adds none. The request is checked first, then the entry to
/// correct, then the file name, then the event id, then the stored form.
pub open spec fn create_spec(j: JournalView, req: RequestView, event_id: Seq<char>) -> Result<
    EntryView,
    JournalErrorView,
> {
    let entries = j.entries_of(req.patient_id);
    let filename = entry_filename(req.recorded_at, event_id);
    let header = header_for(req, event_id, entries);
    if req.patient_id.len() == 0 {
        Err(JournalErrorView::MissingPatientId)
    } else if req.author.id.len() == 0 || req.author.name.len() == 0 {
        Err(JournalErrorView::MissingAuthor)
    } else if req.correction_of is Some && !has_event(entries, req.correction_of->0) {
        Err(JournalErrorView::MissingCorrectionTarget { correction_of: req.correction_of->0 })
    } else if has_file(entries, filename) {
        Err(JournalErrorView::DuplicateEntry { filename })
    } else if has_event(entries, event_id) {
        Err(JournalErrorView::DuplicateEventId { event_id })
    } else {
        match encode_spec(header, req.body) {
            Err(m) => Err(JournalErrorView::InvalidHeader { reason: m }),
            Ok(content) => if reads_back(content, header, req.body) {
                Ok(EntryView { filename, content })
            } else {
                Err(
                    JournalErrorView::InvalidHeader {
                        reason: "the entry does not read back as written"@,
                    },
                )
            },
        }
    }
}

/// Whether a call that began with the journal `before` and ended with
/// `after` and the result `r` did what the request asks for under the event
/// id `event_id`: on success the one entry is added and the path of its file
/// is returned; on failure the journal is unchanged.
pub open spec fn created(
    before: JournalView,
    after: JournalView,
    r: Result<String, JournalError>,
    root: Seq<char>,
    req: RequestView,
    event_id: Seq<char>,
) -> bool {
    match r {
        Ok(path) => {
            &&& create_spec(before, req, event_id) is Ok
            &&& after == before.with_entry(req.patient_id, create_spec(before, req, event_id)->Ok_0)
            &&& path@ == join_spec(
                patient_journal_dir_spec(root, req.patient_id),
                create_spec(before, req, event_id)->Ok_0.filename,
            )
        },
        Err(e) => {
            &&& create_spec(before, req, event_id) == Err::<EntryView, JournalErrorView>(e@)
            &&& after == before
        },
    }
}

/// Reads the entries that a patient has.
fn index_patient(journal: &Journal, patient_id: &str) -> (r: Vec<Indexed>)
    ensures
        indexes(r, journal@.entries_of(patient_id@)),
{
    match journal.find_partition(patient_id) {
        Some(p) => index_entries(&journal.partition_at(p).entries),
        None => Vec::new(),
    }
}

/// Whether the patient has an entry of that file name.
fn file_known(index: &Vec<Indexed>, name: &str, Ghost(entries): Ghost<Seq<EntryView>>) -> (r: bool)
    requires
        indexes(*index, entries),
    ensures
        r == has_file(entries, name@),
{
    let mut i: usize = 0;
    while i < index.len()
        invariant
            i <= index.len(),
            indexes(*index, entries),
            forall|k: int| 0 <= k < i ==> (#[trigger] entries[k]).filename != name@,
        decreases index.len() - i,
    {
        if same_text(index[i].filename.as_str(), name) {
            return true;
        }
        i += 1;
    }
    false
}

/// Writes the entry that a request asks for, under the given event id.
pub fn create_entry_with_id(
    layout: &FsLayout,
    journal: &mut Journal,
    input: JournalEntryInput,
    event_id: String,
) -> (r: Result<String, JournalError>)
    ensures
        created(old(journal)@, final(journal)@, r, layout@, input@, event_id@),
{
    let ghost before = journal@;
    let ghost entries = before.entries_of(input@.patient_id);
    if input.patient_id.as_str().is_empty() {
        return Err(JournalError::MissingPatientId);
    }
    if input.author.id.as_str().is_empty() || input.author.name.as_str().is_empty() {
        return Err(JournalError::MissingAuthor);
    }
    let index = index_patient(journal, input.patient_id.as_str());
    match &input.correction_of {
        Some(c) => {
            if !event_known(&index, index.len(), c.as_str(), Ghost(entries)) {
                return Err(JournalError::MissingCorrectionTarget { correction_of: c.clone() });
            }
        },
        None => {},
    }
    let filename = filename_for(&input.recorded_at, event_id.as_str());
    if file_known(&index, filename.as_str(), Ghost(entries)) {
        return Err(JournalError::DuplicateEntry { filename });
    }
    if event_known(&index, index.len(), event_id.as_str(), Ghost(entries)) {
        return Err(JournalError::DuplicateEventId { event_id });
    }
    let parent_entry = match &input.parent_hash {
        Some(hash) => match find_digest(&index, index.len(), hash.as_str(), Ghost(entries)) {
            Some(k) => Some(index[k].filename.clone()),
            None => None,
        },
        None => None,
    };
    let header = JournalEntryHeader {
        gitehr_event_id: event_id,
        gitehr_patient_id: input.patient_id,
        recorded_at: input.recorded_at,
        author: input.author,
        context: input.context,
        links: input.links,
        codes: input.codes,
        correction_of: input.correction_of,
        parent_hash: input.parent_hash,
        parent_entry,
    };
    let content = match encode_entry(&header, input.body.as_str()) {
        Ok(content) => content,
        Err(m) => {
            return Err(JournalError::InvalidHeader { reason: m });
        },
    };
    let intact = match decode_entry(content.as_str()) {
        Ok(parts) => parts.0.same(&header) && same_text(parts.1.as_str(), input.body.as_str()),
        Err(_) => false,
    };
    if !intact {
        return Err(
            JournalError::InvalidHeader {
                reason: "the entry does not read back as written".to_owned(),
            },
        );
    }
    let dir = layout.patient_journal_dir(header.gitehr_patient_id.as_str());
    let path = join_path(dir.as_str(), filename.as_str());
    journal.insert_entry(
        header.gitehr_patient_id.as_str(),
        StoredEntry { filename, content },
    );
    Ok(path)
}

/// Writes the entry that a request asks for. Where the request brings no
/// event id, a new one is made.
pub fn create_journal_entry_with_layout(
    layout: &FsLayout,
    journal: &mut Journal,
    input: JournalEntryInput,
) -> (r: Result<String, JournalError>)
    ensures
        match input@.event_id {
            Some(id) => created(old(journal)@, final(journal)@, r, layout@, input@, id),
            None => exists|id: Seq<char>|
                is_generated_id(id) && #[trigger] created(
                    old(journal)@,
                    final(journal)@,
                    r,
                    layout@,
                    input@,
                    id,
                ),
        },
{
    let event_id = match &input.event_id {
        Some(id) => id.clone(),
        None => fresh_event_id(),
    };
    create_entry_with_id(layout, journal, input, event_id)
}

/// Writes the entry that a request asks for, below the default root.
pub fn create_journal_entry(journal: &mut Journal, input: JournalEntryInput) -> (r: Result<
    String,
    JournalError,
>)
    ensures
        match input@.event_id {
            Some(id) => created(old(journal)@, final(journal)@, r, default_root(), input@, id),
            None => exists|id: Seq<char>|
                is_generated_id(id) && #[trigger] created(
                    old(journal)@,
                    final(journal)@,
                    r,
                    default_root(),
                    input@,
                    id,
                ),
        },
{
    let layout = FsLayout::new();
    create_journal_entry_with_layout(&layout, journal, input)
}

/// The latest entry of a patient: the last in file-name order, with the
/// digest of its content and the path of its file; `None` where the patient
/// has no entry.
pub open spec fn latest_spec(j: JournalView, root: Seq<char>, patient_id: Seq<char>) -> Option<
    (Seq<char>, Seq<char>, Seq<char>),
> {
    let entries = j.entries_of(patient_id);
    if entries.len() == 0 {
        None
    } else {
        Some(
            (
                entries.last().filename,
                content_digest(entries.last().content),
                join_spec(patient_journal_dir_spec(root, patient_id), entries.last().filename),
            ),
        )
    }
}

/// Whether what was found is the latest entry expected.
pub open spec fn is_latest(
    r: Option<LatestJournalEntry>,
    expected: Option<(Seq<char>, Seq<char>, Seq<char>)>,
) -> bool {
    match r {
        Some(l) => expected == Some((l.filename@, l.hash@, l.path@)),
        None => expected is None,
    }
}

/// The latest entry of a patient.
pub fn get_latest_journal_entry_for_patient(
    layout: &FsLayout,
    journal: &Journal,
    patient_id: &str,
) -> (r: Option<LatestJournalEntry>)
    ensures
        is_latest(r, latest_spec(journal@, layout@, patient_id@)),
{
    match journal.find_partition(patient_id) {
        None => None,
        Some(p) => {
            let part = journal.partition_at(p);
            let n = part.entries.len();
            if n == 0 {
                None
            } else {
                let last = &part.entries[n - 1];
                let dir = layout.patient_journal_dir(patient_id);
                Some(
                    LatestJournalEntry {
                        filename: last.filename.clone(),
                        hash: digest_of(last.content.as_str()),
                        path: join_path(dir.as_str(), last.filename.as_str()),
                    },
                )
            }
        },
    }
}

/// The latest entry of a patient, below the default root.
pub fn get_latest_journal_entry(journal: &Journal, patient_id: &str) -> (r: Option<
    LatestJournalEntry,
>)
    ensures
        is_latest(r, latest_spec(journal@, default_root(), patient_id@)),
{
    let layout = FsLayout::new();
    get_latest_journal_entry_for_patient(&layout, journal, patient_id)
}

} // verus!
