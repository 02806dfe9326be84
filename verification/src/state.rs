//! State files: the named texts below the state directory.

use vstd::prelude::*;
use crate::contributor::require_repo;
use crate::contributor::not_a_repo_message;
use crate::fs_layout::join_path;
use crate::fs_layout::join_spec;
use crate::text::joined;
use crate::text::lemma_lex_asymmetric;
use crate::text::lemma_lex_transitive;
use crate::text::lex_lt;
use crate::text::same_text;
use crate::text::text_lt;

verus! {

/// A state file: its name, its content, and when it was last changed.
#[derive(Debug, Clone)]
pub struct StateFile {
    pub name: String,
    pub content: String,
    pub last_modified: Option<String>,
}

/// The mathematical value of a [`StateFile`].
pub struct StateFileView {
    pub name: Seq<char>,
    pub content: Seq<char>,
    pub last_modified: Option<Seq<char>>,
}

impl View for StateFile {
    type V = StateFileView;

    open spec fn view(&self) -> StateFileView {
        StateFileView {
            name: self.name@,
            content: self.content@,
            last_modified: crate::entry::opt_text(self.last_modified),
        }
    }
}

/// The views of a vector of state files.
pub open spec fn state_views(v: Vec<StateFile>) -> Seq<StateFileView> {
    Seq::new(v.len() as nat, |i: int| v[i]@)
}

/// The directory of state files, from the repository root.
pub open spec fn state_dir() -> Seq<char> {
    "state"@
}

/// The directory of state files, from the repository root.
pub fn get_state_dir() -> (r: String)
    ensures
        r@ == state_dir(),
{
    "state".to_owned()
}

/// Whether a file of the state directory counts as a state file: every
/// file but the directory's `README.md`.
pub open spec fn is_state_file(name: Seq<char>) -> bool {
    name != "README.md"@
}

/// The state files among the first `n` files found.
pub open spec fn kept(found: Seq<StateFileView>, n: int) -> Seq<StateFileView>
    decreases n,
{
    if n <= 0 {
        Seq::empty()
    } else if is_state_file(found[n - 1].name) {
        kept(found, n - 1).push(found[n - 1])
    } else {
        kept(found, n - 1)
    }
}

/// Whether files are in the order of their names.
pub open spec fn by_name(files: Seq<StateFileView>) -> bool {
    forall|i: int, j: int|
        0 <= i < j < files.len() ==> !lex_lt((#[trigger] files[j]).name, (#[trigger] files[i]).name)
}

/// The empty list holds nothing.
proof fn lemma_empty_multiset()
    ensures
        Seq::<StateFileView>::empty().to_multiset() == vstd::multiset::Multiset::<
            StateFileView,
        >::empty(),
{
    let e = Seq::<StateFileView>::empty();
    e.to_multiset_ensures();
}

/// Putting a file into a list adds it to what the list holds.
proof fn lemma_insert_multiset(s: Seq<StateFileView>, pos: int, x: StateFileView)
    requires
        0 <= pos <= s.len(),
    ensures
        s.insert(pos, x).to_multiset() == s.to_multiset().insert(x),
{
    let t = s.insert(pos, x);
    t.to_multiset_ensures();
    assert(t.remove(pos) =~= s);
}

/// The state files among the files found in the state directory, in the
/// order of their names.
pub fn list_state_files(found: Vec<StateFile>) -> (r: Vec<StateFile>)
    ensures
        by_name(state_views(r)),
        state_views(r).to_multiset() == kept(state_views(found), found.len() as int).to_multiset(),
{
    let ghost all = state_views(found);
    let mut rest = found;
    let mut out: Vec<StateFile> = Vec::new();
    assert(state_views(out) =~= Seq::empty());
    proof {
        lemma_empty_multiset();
    }
    while rest.len() > 0
        invariant
            rest.len() <= all.len(),
            state_views(rest) == all.take(rest.len() as int),
            by_name(state_views(out)),
            state_views(out).to_multiset().add(kept(all, rest.len() as int).to_multiset()) == kept(
                all,
                all.len() as int,
            ).to_multiset(),
        decreases rest.len(),
    {
        let ghost n = rest.len() as int;
        let ghost before = state_views(out);
        let ghost rest_before = state_views(rest);
        let file = rest.pop().unwrap();
        assert(file@ == all[n - 1]) by {
            assert(rest_before[n - 1] == all.take(n)[n - 1]);
        }
        if !same_text(file.name.as_str(), "README.md") {
            let mut pos: usize = 0;
            while pos < out.len() && !text_lt(file.name.as_str(), out[pos].name.as_str())
                invariant
                    pos <= out.len(),
                    before == state_views(out),
                    forall|k: int| 0 <= k < pos ==> !lex_lt(file@.name, (#[trigger] before[k]).name),
                decreases out.len() - pos,
            {
                pos += 1;
            }
            out.insert(pos, file);
            proof {
                let after = state_views(out);
                assert(after =~= before.insert(pos as int, file@));
                lemma_insert_multiset(before, pos as int, file@);
                kept(all, n - 1).to_multiset_ensures();
                assert forall|i: int, j: int| 0 <= i < j < after.len() implies !lex_lt(
                    (#[trigger] after[j]).name,
                    (#[trigger] after[i]).name,
                ) by {
                    let p = pos as int;
                    if i == p && j - 1 > p {
                        if lex_lt(before[j - 1].name, file@.name) {
                            lemma_lex_transitive(before[j - 1].name, file@.name, before[p].name);
                        }
                    } else if i == p {
                        lemma_lex_asymmetric(file@.name, before[p].name);
                    }
                }
            }
        }
    }
    out
}

/// Why a state file cannot be shown that is not there.
pub open spec fn not_found_message(filename: Seq<char>) -> Seq<char> {
    "State file '"@ + filename + "' not found"@
}

/// The state file of a name, from what was read of it: its content and the
/// time of its last change; `None` for a file that is not there.
pub fn view_state_file(filename: &str, read: Option<(String, Option<String>)>) -> (r: Result<
    StateFile,
    String,
>)
    ensures
        match read {
            None => r is Err && r->Err_0@ == not_found_message(filename@),
            Some(found) => r is Ok && r->Ok_0@ == (StateFileView {
                name: filename@,
                content: found.0@,
                last_modified: crate::entry::opt_text(found.1),
            }),
        },
{
    match read {
        None => {
            let a = joined("State file '", filename);
            Err(joined(a.as_str(), "' not found"))
        },
        Some(found) => Ok(
            StateFile { name: filename.to_owned(), content: found.0, last_modified: found.1 },
        ),
    }
}

/// A file to write: where, and what.
#[derive(Debug, Clone)]
pub struct FileWrite {
    pub path: String,
    pub content: String,
}

/// What updating a state file writes, and says.
pub fn update_state_file(filename: &str, content: &str) -> (r: (FileWrite, String))
    ensures
        r.0.path@ == join_spec(state_dir(), filename@),
        r.0.content@ == content@,
        r.1@ == "Updated state file: "@ + filename@,
{
    let dir = get_state_dir();
    (
        FileWrite { path: join_path(dir.as_str(), filename), content: content.to_owned() },
        joined("Updated state file: ", filename),
    )
}

/// What setting a state file writes, which is nothing outside a repository.
pub fn run_state_set(is_repo: bool, filename: &str, content: &str) -> (r: Result<
    FileWrite,
    String,
>)
    ensures
        !is_repo ==> r is Err && r->Err_0@ == not_a_repo_message(),
        is_repo ==> r is Ok && r->Ok_0.path@ == join_spec(state_dir(), filename@)
            && r->Ok_0.content@ == content@,
{
    match require_repo(is_repo) {
        Err(e) => Err(e),
        Ok(_) => Ok(update_state_file(filename, content).0),
    }
}

/// The content that was read of a file.
pub open spec fn content_read(read: Option<(String, Option<String>)>) -> Seq<char> {
    match read {
        Some(found) => found.0@,
        None => Seq::empty(),
    }
}

/// What showing a state file prints, which is nothing outside a repository.
pub fn run_state_get(is_repo: bool, filename: &str, read: Option<(String, Option<String>)>) -> (r:
    Result<String, String>)
    ensures
        !is_repo ==> r is Err && r->Err_0@ == not_a_repo_message(),
        is_repo && read is None ==> r is Err && r->Err_0@ == not_found_message(filename@),
        is_repo && read is Some ==> r is Ok && r->Ok_0@ == content_read(read),
{
    match require_repo(is_repo) {
        Err(e) => Err(e),
        Ok(_) => match view_state_file(filename, read) {
            Err(e) => Err(e),
            Ok(file) => Ok(file.content),
        },
    }
}

/// The lines of one state file in the list.
pub open spec fn state_file_lines(f: StateFileView) -> Seq<Seq<char>> {
    match f.last_modified {
        Some(m) => seq!["  - "@ + f.name, "    Last modified: "@ + m],
        None => seq!["  - "@ + f.name],
    }
}

/// The lines of the first `n` state files in the list.
pub open spec fn state_list_lines(files: Seq<StateFileView>, n: int) -> Seq<Seq<char>>
    decreases n,
{
    if n <= 0 {
        seq!["State files:"@]
    } else {
        state_list_lines(files, n - 1) + state_file_lines(files[n - 1])
    }
}

/// The list of state files, line by line.
pub open spec fn state_listing(files: Seq<StateFileView>) -> Seq<Seq<char>> {
    if files.len() == 0 {
        seq![
            "No state files found."@,
            "Use 'gitehr state set <filename> <content>' to create one."@,
        ]
    } else {
        state_list_lines(files, files.len() as int)
    }
}

/// The list of state files, line by line; nothing outside a repository.
pub fn run_state_list(is_repo: bool, files: &Vec<StateFile>) -> (r: Result<Vec<String>, String>)
    ensures
        !is_repo ==> r is Err && r->Err_0@ == not_a_repo_message(),
        is_repo ==> r is Ok && crate::entry::texts(r->Ok_0) == state_listing(state_views(*files)),
{
    match require_repo(is_repo) {
        Err(e) => {
            return Err(e);
        },
        Ok(_) => {},
    }
    let mut out: Vec<String> = Vec::new();
    if files.len() == 0 {
        out.push("No state files found.".to_owned());
        out.push("Use 'gitehr state set <filename> <content>' to create one.".to_owned());
        return Ok(out);
    }
    out.push("State files:".to_owned());
    let mut i: usize = 0;
    while i < files.len()
        invariant
            i <= files.len(),
            crate::entry::texts(out) == state_list_lines(state_views(*files), i as int),
        decreases files.len() - i,
    {
        let f = &files[i];
        out.push(joined("  - ", f.name.as_str()));
        match &f.last_modified {
            Some(m) => {
                out.push(joined("    Last modified: ", m.as_str()));
            },
            None => {},
        }
        i += 1;
    }
    Ok(out)
}

} // verus!
