//! What a graphical front end shows of a repository: entries, state files,
//! contributors and the status, as plain records.

use vstd::prelude::*;
use crate::codec::body_start;
use crate::codec::decode_entry;
use crate::codec::decode_spec;
use crate::codec::has_body;
use crate::contributor::Contributor;
use crate::contributor::ContributorConfig;
use crate::contributor::clone_opt;
use crate::entry::opt_text;
use crate::entry::texts;
use crate::journal::EntryView;
use crate::journal::Journal;
use crate::journal::StoredEntry;
use crate::journal::entry_views;
use crate::state::StateFile;
use crate::status::RepoStatus;
use crate::text::chars_of;
use crate::text::ends_with_spec;
use crate::text::text_ends_with;
use crate::text::trim_spec;
use crate::text::trimmed;

verus! {

/// One entry in a list of entries.
#[derive(Debug)]
pub struct JournalEntryInfo {
    pub filename: String,
    pub timestamp: String,
    pub parent_entry: Option<String>,
    pub author: Option<String>,
    pub content_preview: String,
}

/// The mathematical value of a [`JournalEntryInfo`].
pub struct EntryInfoView {
    pub filename: Seq<char>,
    pub timestamp: Seq<char>,
    pub parent_entry: Option<Seq<char>>,
    pub author: Option<Seq<char>>,
    pub content_preview: Seq<char>,
}

impl View for JournalEntryInfo {
    type V = EntryInfoView;

    open spec fn view(&self) -> EntryInfoView {
        EntryInfoView {
            filename: self.filename@,
            timestamp: self.timestamp@,
            parent_entry: opt_text(self.parent_entry),
            author: opt_text(self.author),
            content_preview: self.content_preview@,
        }
    }
}

/// A state file as shown.
#[derive(Debug)]
pub struct StateFileInfo {
    pub name: String,
    pub content: String,
    pub last_modified: Option<String>,
}

/// The status of a repository as shown.
#[derive(Debug)]
pub struct RepoStatusInfo {
    pub is_gitehr_repo: bool,
    pub gitehr_version: Option<String>,
    pub journal_entry_count: usize,
    pub state_files: Vec<String>,
    pub is_encrypted: bool,
}

/// A contributor as shown.
#[derive(Debug)]
pub struct ContributorInfo {
    pub id: String,
    pub name: String,
    pub role: Option<String>,
    pub email: Option<String>,
    pub enabled: bool,
    pub active: bool,
}

/// The number of characters of a preview.
pub const PREVIEW_LENGTH: usize = 200;

/// The number of entries on a page where none is given.
pub const DEFAULT_PAGE: usize = 50;

/// The start of a text, at most 200 characters, with spaces for line feeds.
pub open spec fn preview_spec(body: Seq<char>) -> Seq<char> {
    let n = if body.len() < 200 {
        body.len() as int
    } else {
        200
    };
    Seq::new(
        n as nat,
        |i: int|
            if body[i] == '\n' {
                ' '
            } else {
                body[i]
            },
    )
}

/// The start of a text, at most 200 characters, with spaces for line feeds.
pub fn preview_of(body: &str) -> (r: String)
    ensures
        r@ == preview_spec(body@),
{
    let x = chars_of(body);
    let n = if x.len() < PREVIEW_LENGTH {
        x.len()
    } else {
        PREVIEW_LENGTH
    };
    let mut out = String::new();
    let mut i: usize = 0;
    while i < n
        invariant
            i <= n <= x.len(),
            x@ == body@,
            n == if body@.len() < 200 {
                body@.len() as int
            } else {
                200
            },
            out@ == preview_spec(body@).take(i as int),
        decreases n - i,
    {
        let c = if x[i] == '\n' {
            ' '
        } else {
            x[i]
        };
        out.push(c);
        i += 1;
    }
    out
}

/// What is shown of a stored entry: nothing where it lacks a delimiter or
/// does not read as an entry; else its file name, its time, its parent, its
/// author's name, and the start of its body without the white space round it.
pub open spec fn info_of(e: EntryView) -> Option<EntryInfoView> {
    if body_start(e.content) is None {
        None
    } else {
        match decode_spec(e.content) {
            Err(_) => None,
            Ok(decoded) => Some(
                EntryInfoView {
                    filename: e.filename,
                    timestamp: decoded.0.recorded_at.header_stamp(),
                    parent_entry: decoded.0.parent_entry,
                    author: Some(decoded.0.author.name),
                    content_preview: preview_spec(trim_spec(decoded.1)),
                },
            ),
        }
    }
}

/// What is shown of a stored entry.
pub fn entry_info(entry: &StoredEntry) -> (r: Option<JournalEntryInfo>)
    ensures
        match r {
            Some(info) => info_of(entry@) == Some(info@),
            None => info_of(entry@) is None,
        },
{
    if !has_body(entry.content.as_str()) {
        return None;
    }
    match decode_entry(entry.content.as_str()) {
        Err(_) => None,
        Ok(decoded) => {
            let (header, body) = decoded;
            let text = trimmed(body.as_str());
            Some(
                JournalEntryInfo {
                    filename: entry.filename.clone(),
                    timestamp: header.recorded_at.header_stamp(),
                    parent_entry: header.parent_entry,
                    author: Some(header.author.name),
                    content_preview: preview_of(text.as_str()),
                },
            )
        },
    }
}

/// Whether a file name looks like that of an entry: it holds a `T` and a
/// hyphen and ends with `.md`.
pub open spec fn is_entry_name(name: Seq<char>) -> bool {
    name.contains('T') && name.contains('-') && ends_with_spec(name, ".md"@)
}

/// Whether a file name looks like that of an entry.
pub fn looks_like_entry(name: &str) -> (r: bool)
    ensures
        r == is_entry_name(name@),
{
    let x = chars_of(name);
    let mut has_t = false;
    let mut has_hyphen = false;
    let mut i: usize = 0;
    while i < x.len()
        invariant
            i <= x.len(),
            has_t == x@.take(i as int).contains('T'),
            has_hyphen == x@.take(i as int).contains('-'),
        decreases x.len() - i,
    {
        let ghost before = x@.take(i as int);
        assert(x@.take(i + 1) =~= before.push(x[i as int]));
        assert forall|c: char| before.push(x[i as int]).contains(c) <==> (before.contains(c) || c
            == x[i as int]) by {
            if before.contains(c) {
                let k = choose|k: int| 0 <= k < before.len() && before[k] == c;
            }
            if c == x[i as int] {
                assert(before.push(x[i as int])[before.len() as int] == c);
            }
        }
        if x[i] == 'T' {
            has_t = true;
        }
        if x[i] == '-' {
            has_hyphen = true;
        }
        i += 1;
    }
    assert(x@.take(x.len() as int) =~= x@);
    has_t && has_hyphen && text_ends_with(name, ".md")
}

/// The index in file-name order of the entry at position `k` of the list:
/// counted from the end where the list is reversed.
pub open spec fn position(len: int, k: int, reverse: bool) -> int {
    if reverse {
        len - 1 - k
    } else {
        k
    }
}

/// The entries among the first `n` whose file names look like those of
/// entries.
pub open spec fn named(entries: Seq<EntryView>, n: int) -> Seq<EntryView>
    decreases n,
{
    if n <= 0 {
        Seq::empty()
    } else if is_entry_name(entries[n - 1].filename) {
        named(entries, n - 1).push(entries[n - 1])
    } else {
        named(entries, n - 1)
    }
}

/// What is shown of the entries at the positions from `from` up to `to` of a
/// list; entries that do not read as entries are passed over.
pub open spec fn infos_between(list: Seq<EntryView>, reverse: bool, from: int, to: int) -> Seq<
    EntryInfoView,
>
    decreases to - from,
{
    if to <= from {
        Seq::empty()
    } else {
        let e = list[position(list.len() as int, to - 1, reverse)];
        let before = infos_between(list, reverse, from, to - 1);
        if info_of(e) is Some {
            before.push(info_of(e)->0)
        } else {
            before
        }
    }
}

/// The views of a vector of entry infos.
pub open spec fn info_views(v: Vec<JournalEntryInfo>) -> Seq<EntryInfoView> {
    Seq::new(v.len() as nat, |i: int| v[i]@)
}

/// One page of the list of a patient's entries, as shown.
pub open spec fn page_spec(
    entries: Seq<EntryView>,
    limit: Option<usize>,
    offset: Option<usize>,
    reverse: Option<bool>,
) -> Seq<EntryInfoView> {
    let list = named(entries, entries.len() as int);
    let from = match offset {
        Some(o) => if o < list.len() {
            o as int
        } else {
            list.len() as int
        },
        None => 0,
    };
    let size = match limit {
        Some(l) => l as int,
        None => 50,
    };
    let to = if from + size < list.len() {
        from + size
    } else {
        list.len() as int
    };
    infos_between(list, reverse == Some(true), from, to)
}

/// One page of the list of a patient's entries: the entries whose file names
/// look like those of entries, in file-name order or in the reverse of it;
/// of these `limit` positions from the position `offset` on; of those the
/// entries that read as entries. Without `limit` a page has 50 positions;
/// without `offset` it starts at the first.
pub fn get_journal_entries(
    journal: &Journal,
    patient_id: &str,
    limit: Option<usize>,
    offset: Option<usize>,
    reverse: Option<bool>,
) -> (r: Vec<JournalEntryInfo>)
    ensures
        info_views(r) == page_spec(journal@.entries_of(patient_id@), limit, offset, reverse),
{
    let mut out: Vec<JournalEntryInfo> = Vec::new();
    let p = match journal.find_partition(patient_id) {
        Some(p) => p,
        None => {
            return out;
        },
    };
    let stored = &journal.partition_at(p).entries;
    let ghost entries = journal@.entries_of(patient_id@);
    let mut picks: Vec<usize> = Vec::new();
    let mut i: usize = 0;
    while i < stored.len()
        invariant
            i <= stored.len(),
            entries == entry_views(*stored),
            picks.len() == named(entries, i as int).len(),
            forall|k: int|
                0 <= k < picks.len() ==> (#[trigger] picks[k]) < stored.len() && entries[picks[k] as int]
                    == named(entries, i as int)[k],
        decreases stored.len() - i,
    {
        if looks_like_entry(stored[i].filename.as_str()) {
            picks.push(i);
        }
        i += 1;
    }
    let ghost list = named(entries, entries.len() as int);
    let n = picks.len();
    let backwards = match reverse {
        Some(b) => b,
        None => false,
    };
    let from = match offset {
        Some(o) => if o < n {
            o
        } else {
            n
        },
        None => 0,
    };
    let size = match limit {
        Some(l) => l,
        None => DEFAULT_PAGE,
    };
    let to = if size < n - from {
        from + size
    } else {
        n
    };
    let mut k: usize = from;
    while k < to
        invariant
            from <= k <= to <= n,
            n == picks.len(),
            n == list.len(),
            entries == entry_views(*stored),
            forall|m: int|
                0 <= m < picks.len() ==> (#[trigger] picks[m]) < stored.len() && entries[picks[m] as int]
                    == list[m],
            info_views(out) == infos_between(list, backwards, from as int, k as int),
        decreases to - k,
    {
        let at = if backwards {
            n - 1 - k
        } else {
            k
        };
        let entry = &stored[picks[at]];
        match entry_info(entry) {
            Some(info) => {
                out.push(info);
            },
            None => {},
        }
        k += 1;
    }
    out
}

/// What is shown of a state file: all of it.
pub fn state_file_info(file: &StateFile) -> (r: StateFileInfo)
    ensures
        r.name@ == file.name@,
        r.content@ == file.content@,
        opt_text(r.last_modified) == opt_text(file.last_modified),
{
    StateFileInfo {
        name: file.name.clone(),
        content: file.content.clone(),
        last_modified: clone_opt(&file.last_modified),
    }
}

/// What is shown of the state files.
pub fn get_state_files(files: &Vec<StateFile>) -> (r: Vec<StateFileInfo>)
    ensures
        r.len() == files.len(),
        forall|i: int|
            0 <= i < files.len() ==> (#[trigger] r[i]).name@ == files[i].name@ && r[i].content@
                == files[i].content@ && opt_text(r[i].last_modified) == opt_text(
                files[i].last_modified,
            ),
{
    let mut out: Vec<StateFileInfo> = Vec::new();
    let mut i: usize = 0;
    while i < files.len()
        invariant
            i <= files.len(),
            out.len() == i,
            forall|k: int|
                0 <= k < i ==> (#[trigger] out[k]).name@ == files[k].name@ && out[k].content@
                    == files[k].content@ && opt_text(out[k].last_modified) == opt_text(
                    files[k].last_modified,
                ),
        decreases files.len() - i,
    {
        out.push(state_file_info(&files[i]));
        i += 1;
    }
    out
}

/// What is shown of a contributor: all but the key and the time of adding.
pub fn contributor_info(c: &Contributor) -> (r: ContributorInfo)
    ensures
        r.id@ == c.id@,
        r.name@ == c.name@,
        opt_text(r.role) == opt_text(c.role),
        opt_text(r.email) == opt_text(c.email),
        r.enabled == c.enabled,
        r.active == c.active,
{
    ContributorInfo {
        id: c.id.clone(),
        name: c.name.clone(),
        role: clone_opt(&c.role),
        email: clone_opt(&c.email),
        enabled: c.enabled,
        active: c.active,
    }
}

/// What is shown of the contributors; nothing where there is no registry.
pub fn get_contributors(config: Option<&ContributorConfig>) -> (r: Vec<ContributorInfo>)
    ensures
        match config {
            None => r.len() == 0,
            Some(c) => r.len() == c.contributors.len() && forall|i: int|
                0 <= i < r.len() ==> (#[trigger] r[i]).id@ == c.contributors[i].id@ && r[i].name@
                    == c.contributors[i].name@ && opt_text(r[i].role) == opt_text(
                    c.contributors[i].role,
                ) && opt_text(r[i].email) == opt_text(c.contributors[i].email) && r[i].enabled
                    == c.contributors[i].enabled && r[i].active == c.contributors[i].active,
        },
{
    let mut out: Vec<ContributorInfo> = Vec::new();
    match config {
        None => {},
        Some(c) => {
            let mut i: usize = 0;
            while i < c.contributors.len()
                invariant
                    i <= c.contributors.len(),
                    out.len() == i,
                    forall|k: int|
                        0 <= k < i ==> (#[trigger] out[k]).id@ == c.contributors[k].id@
                            && out[k].name@ == c.contributors[k].name@ && opt_text(out[k].role)
                            == opt_text(c.contributors[k].role) && opt_text(out[k].email)
                            == opt_text(c.contributors[k].email) && out[k].enabled
                            == c.contributors[k].enabled && out[k].active
                            == c.contributors[k].active,
                decreases c.contributors.len() - i,
            {
                out.push(contributor_info(&c.contributors[i]));
                i += 1;
            }
        },
    }
    out
}

/// What is shown of a status: all but what git says.
pub fn get_status(status: RepoStatus) -> (r: RepoStatusInfo)
    ensures
        r.is_gitehr_repo == status.is_gitehr_repo,
        opt_text(r.gitehr_version) == opt_text(status.gitehr_version),
        r.journal_entry_count == status.journal_entry_count,
        texts(r.state_files) == texts(status.state_files),
        r.is_encrypted == status.is_encrypted,
{
    RepoStatusInfo {
        is_gitehr_repo: status.is_gitehr_repo,
        gitehr_version: status.gitehr_version,
        journal_entry_count: status.journal_entry_count,
        state_files: status.state_files,
        is_encrypted: status.is_encrypted,
    }
}

} // verus!
