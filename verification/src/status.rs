//! The status of a repository, from what was found on disk and what git says.

use vstd::prelude::*;
use crate::contributor::not_a_repo_message;
use crate::entry::opt_text;
use crate::entry::texts;
use crate::state::is_state_file;
use crate::text::chars_of;
use crate::text::decimal;
use crate::text::ends_with_spec;
use crate::text::joined;
use crate::text::lines_from;
use crate::text::nonempty_lines;
use crate::text::number_text;
use crate::text::same_text;
use crate::text::text_ends_with;
use crate::text::text_of_range;
use crate::text::trim_spec;
use crate::text::trimmed;

verus! {

/// What is known of a repository.
#[derive(Debug)]
pub struct RepoStatus {
    pub is_gitehr_repo: bool,
    pub gitehr_version: Option<String>,
    pub journal_entry_count: usize,
    pub state_files: Vec<String>,
    pub has_uncommitted_changes: bool,
    pub uncommitted_files: Vec<String>,
    pub is_encrypted: bool,
}

/// The mathematical value of a [`RepoStatus`].
pub struct StatusView {
    pub is_gitehr_repo: bool,
    pub gitehr_version: Option<Seq<char>>,
    pub journal_entry_count: nat,
    pub state_files: Seq<Seq<char>>,
    pub has_uncommitted_changes: bool,
    pub uncommitted_files: Seq<Seq<char>>,
    pub is_encrypted: bool,
}

impl View for RepoStatus {
    type V = StatusView;

    open spec fn view(&self) -> StatusView {
        StatusView {
            is_gitehr_repo: self.is_gitehr_repo,
            gitehr_version: opt_text(self.gitehr_version),
            journal_entry_count: self.journal_entry_count as nat,
            state_files: texts(self.state_files),
            has_uncommitted_changes: self.has_uncommitted_changes,
            uncommitted_files: texts(self.uncommitted_files),
            is_encrypted: self.is_encrypted,
        }
    }
}

/// What was found where the repository should be.
#[derive(Debug)]
pub struct RepoFacts {
    /// Whether the metadata directory is there.
    pub has_gitehr_dir: bool,
    /// The content of the version file, if it could be read.
    pub version: Option<String>,
    /// The names found in the journal directory; empty where it is missing.
    pub journal_names: Vec<String>,
    /// The names of the files found in the state directory; empty where it
    /// is missing.
    pub state_names: Vec<String>,
    /// What `git status --porcelain` printed, inside a git repository.
    pub git_status: Option<String>,
    /// Whether the marker of encryption is there.
    pub has_encrypted_marker: bool,
}

/// Whether a file name has the extension `md`.
pub open spec fn has_md_extension(name: Seq<char>) -> bool {
    name.len() > 3 && ends_with_spec(name, ".md"@)
}

/// The number of names with the extension `md` among the first `n`.
pub open spec fn count_md(names: Seq<Seq<char>>, n: int) -> nat
    decreases n,
{
    if n <= 0 {
        0
    } else if has_md_extension(names[n - 1]) {
        count_md(names, n - 1) + 1
    } else {
        count_md(names, n - 1)
    }
}

proof fn lemma_count_md_bound(names: Seq<Seq<char>>, n: int)
    requires
        0 <= n,
    ensures
        count_md(names, n) <= n,
    decreases n,
{
    if n > 0 {
        lemma_count_md_bound(names, n - 1);
    }
}

/// The number of journal entries among the names found in a journal directory.
pub fn count_journal_entries(names: &Vec<String>) -> (r: usize)
    ensures
        r == count_md(texts(*names), names.len() as int),
{
    let mut count: usize = 0;
    let mut i: usize = 0;
    while i < names.len()
        invariant
            i <= names.len(),
            count == count_md(texts(*names), i as int),
            count <= i,
        decreases names.len() - i,
    {
        let name = names[i].as_str();
        if text_ends_with(name, ".md") && chars_of(name).len() > 3 {
            count += 1;
        }
        i += 1;
    }
    count
}

/// The state files among the first `n` names.
pub open spec fn state_names(names: Seq<Seq<char>>, n: int) -> Seq<Seq<char>>
    decreases n,
{
    if n <= 0 {
        Seq::empty()
    } else if is_state_file(names[n - 1]) {
        state_names(names, n - 1).push(names[n - 1])
    } else {
        state_names(names, n - 1)
    }
}

/// The names of the state files among the names found in a state directory.
pub fn list_state_names(names: &Vec<String>) -> (r: Vec<String>)
    ensures
        texts(r) == state_names(texts(*names), names.len() as int),
{
    let mut out: Vec<String> = Vec::new();
    let mut i: usize = 0;
    while i < names.len()
        invariant
            i <= names.len(),
            texts(out) == state_names(texts(*names), i as int),
        decreases names.len() - i,
    {
        if !same_text(names[i].as_str(), "README.md") {
            out.push(names[i].clone());
        }
        i += 1;
    }
    out
}

/// The lines of a text that are not empty.
pub fn lines_of(text: &str) -> (r: Vec<String>)
    ensures
        texts(r) == nonempty_lines(text@),
{
    let x = chars_of(text);
    let n = x.len();
    let mut out: Vec<String> = Vec::new();
    let mut start: usize = 0;
    let mut i: usize = 0;
    while i < n
        invariant
            start <= i <= n,
            n == x.len(),
            x@ == text@,
            nonempty_lines(text@) == texts(out) + lines_from(x@, start as int, i as int),
        decreases n - i,
    {
        if x[i] == '\n' {
            let end = if i > start && x[i - 1] == '\r' {
                i - 1
            } else {
                i
            };
            if end > start {
                out.push(text_of_range(&x, start, end));
            }
            start = i + 1;
        }
        i += 1;
    }
    if start < n {
        out.push(text_of_range(&x, start, n));
    }
    out
}

/// The files that git reports as changed: the lines of its report that are
/// not empty; none outside a git repository.
pub open spec fn changed_files(git_status: Option<Seq<char>>) -> Seq<Seq<char>> {
    match git_status {
        Some(report) => nonempty_lines(report),
        None => Seq::empty(),
    }
}

/// The files that git reports as changed, and whether there are any.
pub fn check_git_status(git_status: &Option<String>) -> (r: (bool, Vec<String>))
    ensures
        texts(r.1) == changed_files(opt_text(*git_status)),
        r.0 == (r.1.len() > 0),
{
    match git_status {
        Some(report) => {
            let files = lines_of(report.as_str());
            (files.len() > 0, files)
        },
        None => {
            let files: Vec<String> = Vec::new();
            (false, files)
        },
    }
}

/// The status that the facts found amount to: outside a repository nothing
/// is reported but that.
pub open spec fn status_of(
    has_gitehr_dir: bool,
    version: Option<Seq<char>>,
    journal_names: Seq<Seq<char>>,
    state: Seq<Seq<char>>,
    git_status: Option<Seq<char>>,
    has_encrypted_marker: bool,
) -> StatusView {
    if !has_gitehr_dir {
        StatusView {
            is_gitehr_repo: false,
            gitehr_version: None,
            journal_entry_count: 0,
            state_files: Seq::empty(),
            has_uncommitted_changes: false,
            uncommitted_files: Seq::empty(),
            is_encrypted: false,
        }
    } else {
        StatusView {
            is_gitehr_repo: true,
            gitehr_version: version,
            journal_entry_count: count_md(journal_names, journal_names.len() as int),
            state_files: state_names(state, state.len() as int),
            has_uncommitted_changes: changed_files(git_status).len() > 0,
            uncommitted_files: changed_files(git_status),
            is_encrypted: has_encrypted_marker,
        }
    }
}

impl RepoStatus {
    /// The status that the facts found amount to.
    pub fn gather(facts: RepoFacts) -> (r: RepoStatus)
        ensures
            r@ == status_of(
                facts.has_gitehr_dir,
                opt_text(facts.version),
                texts(facts.journal_names),
                texts(facts.state_names),
                opt_text(facts.git_status),
                facts.has_encrypted_marker,
            ),
    {
        if !facts.has_gitehr_dir {
            let state_files: Vec<String> = Vec::new();
            let uncommitted_files: Vec<String> = Vec::new();
            assert(texts(state_files) =~= Seq::empty());
            return RepoStatus {
                is_gitehr_repo: false,
                gitehr_version: None,
                journal_entry_count: 0,
                state_files,
                has_uncommitted_changes: false,
                uncommitted_files,
                is_encrypted: false,
            };
        }
        let journal_entry_count = count_journal_entries(&facts.journal_names);
        let state_files = list_state_names(&facts.state_names);
        let (has_uncommitted_changes, uncommitted_files) = check_git_status(&facts.git_status);
        RepoStatus {
            is_gitehr_repo: true,
            gitehr_version: facts.version,
            journal_entry_count,
            state_files,
            has_uncommitted_changes,
            uncommitted_files,
            is_encrypted: facts.has_encrypted_marker,
        }
    }
}

/// Each text after two spaces and `mark`.
pub open spec fn listed(items: Seq<Seq<char>>, mark: Seq<char>) -> Seq<Seq<char>> {
    Seq::new(items.len(), |i: int| mark + items[i])
}

/// The report of a status, line by line.
pub open spec fn status_lines(s: StatusView) -> Seq<Seq<char>> {
    if !s.is_gitehr_repo {
        seq![not_a_repo_message(), "Run 'gitehr init' to create a new repository."@]
    } else {
        seq!["GitEHR Repository Status"@, "========================"@, Seq::empty()] + (
        match s.gitehr_version {
            Some(v) => seq!["Repository version: "@ + trim_spec(v)],
            None => Seq::empty(),
        }) + seq![
            if s.is_encrypted {
                "Encryption: Encrypted"@
            } else {
                "Encryption: Not encrypted"@
            },
            Seq::empty(),
            "Journal entries: "@ + decimal(s.journal_entry_count),
        ] + (if s.state_files.len() == 0 {
            seq!["State files: None"@]
        } else {
            seq!["State files: "@ + decimal(s.state_files.len())] + listed(s.state_files, "  - "@)
        }) + seq![Seq::empty()] + (if s.has_uncommitted_changes {
            seq!["Uncommitted changes:"@] + listed(s.uncommitted_files, "  "@)
        } else {
            seq!["Working directory clean (no uncommitted changes)"@]
        })
    }
}

/// Appends each text after `mark`.
fn push_listed(out: &mut Vec<String>, items: &Vec<String>, mark: &str)
    ensures
        texts(*final(out)) == texts(*old(out)) + listed(texts(*items), mark@),
{
    let ghost start = texts(*out);
    let mut i: usize = 0;
    while i < items.len()
        invariant
            i <= items.len(),
            texts(*out) == start + listed(texts(*items), mark@).take(i as int),
        decreases items.len() - i,
    {
        let ghost before = texts(*out);
        out.push(joined(mark, items[i].as_str()));
        assert(start + listed(texts(*items), mark@).take(i + 1) =~= before.push(
            mark@ + items[i as int]@,
        ));
        i += 1;
    }
}

/// Appends one line.
fn push_line(out: &mut Vec<String>, line: String)
    ensures
        texts(*final(out)) == texts(*old(out)) + seq![line@],
{
    out.push(line);
}

/// The report of a status, line by line.
pub fn run_status(status: &RepoStatus) -> (r: Vec<String>)
    ensures
        texts(r) == status_lines(status@),
{
    let mut out: Vec<String> = Vec::new();
    if !status.is_gitehr_repo {
        push_line(&mut out, "Not a GitEHR repository (or not in the repository root).".to_owned());
        push_line(&mut out, "Run 'gitehr init' to create a new repository.".to_owned());
        return out;
    }
    push_line(&mut out, "GitEHR Repository Status".to_owned());
    push_line(&mut out, "========================".to_owned());
    push_line(&mut out, String::new());
    match &status.gitehr_version {
        Some(v) => {
            let t = trimmed(v.as_str());
            push_line(&mut out, joined("Repository version: ", t.as_str()));
        },
        None => {},
    }
    let encryption = if status.is_encrypted {
        "Encryption: Encrypted"
    } else {
        "Encryption: Not encrypted"
    };
    push_line(&mut out, encryption.to_owned());
    push_line(&mut out, String::new());
    let count = number_text(status.journal_entry_count);
    push_line(&mut out, joined("Journal entries: ", count.as_str()));
    if status.state_files.len() == 0 {
        push_line(&mut out, "State files: None".to_owned());
    } else {
        let n = number_text(status.state_files.len());
        push_line(&mut out, joined("State files: ", n.as_str()));
        push_listed(&mut out, &status.state_files, "  - ");
    }
    push_line(&mut out, String::new());
    if status.has_uncommitted_changes {
        push_line(&mut out, "Uncommitted changes:".to_owned());
        push_listed(&mut out, &status.uncommitted_files, "  ");
    } else {
        push_line(&mut out, "Working directory clean (no uncommitted changes)".to_owned());
    }
    out
}

} // verus!
