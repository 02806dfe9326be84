//! The registry of remotes: named addresses that the repository knows.

use vstd::prelude::*;
use crate::text::joined;
use crate::text::same_text;
use crate::timestamp::Timestamp;

verus! {

/// The address of a remote and when it was added.
#[derive(Debug, Clone)]
pub struct RemoteEntry {
    pub url: String,
    pub added_at: String,
}

/// The mathematical value of a [`RemoteEntry`].
pub struct RemoteView {
    pub url: Seq<char>,
    pub added_at: Seq<char>,
}

impl View for RemoteEntry {
    type V = RemoteView;

    open spec fn view(&self) -> RemoteView {
        RemoteView { url: self.url@, added_at: self.added_at@ }
    }
}

/// The remotes by name, in the order in which they were added.
#[derive(Debug, Clone)]
pub struct RemoteConfig {
    pub remotes: Vec<(String, RemoteEntry)>,
}

impl View for RemoteConfig {
    type V = Seq<(Seq<char>, RemoteView)>;

    open spec fn view(&self) -> Seq<(Seq<char>, RemoteView)> {
        Seq::new(self.remotes.len() as nat, |i: int| (self.remotes[i].0@, self.remotes[i].1@))
    }
}

/// Whether a remote has the name `name`.
pub open spec fn has_remote(remotes: Seq<(Seq<char>, RemoteView)>, name: Seq<char>) -> bool {
    exists|i: int| 0 <= i < remotes.len() && (#[trigger] remotes[i]).0 == name
}

/// The first `n` remotes without those of the name `name`.
pub open spec fn without(remotes: Seq<(Seq<char>, RemoteView)>, name: Seq<char>, n: int) -> Seq<
    (Seq<char>, RemoteView),
>
    decreases n,
{
    if n <= 0 {
        Seq::empty()
    } else if remotes[n - 1].0 == name {
        without(remotes, name, n - 1)
    } else {
        without(remotes, name, n - 1).push(remotes[n - 1])
    }
}

/// Why a remote cannot be added under a name that is taken.
pub open spec fn exists_message(name: Seq<char>) -> Seq<char> {
    "Remote '"@ + name + "' already exists. Use 'gitehr remote remove "@ + name + "' first."@
}

/// Why a remote cannot be removed that is not there.
pub open spec fn missing_message(name: Seq<char>) -> Seq<char> {
    "Remote '"@ + name + "' does not exist."@
}

impl RemoteConfig {
    /// A registry without remotes.
    pub fn new() -> (r: RemoteConfig)
        ensures
            r@.len() == 0,
    {
        let r = RemoteConfig { remotes: Vec::new() };
        r
    }

    /// Whether a remote has the name `name`.
    pub fn contains(&self, name: &str) -> (r: bool)
        ensures
            r == has_remote(self@, name@),
    {
        let mut i: usize = 0;
        while i < self.remotes.len()
            invariant
                i <= self.remotes.len(),
                forall|k: int| 0 <= k < i ==> (#[trigger] self@[k]).0 != name@,
            decreases self.remotes.len() - i,
        {
            if same_text(self.remotes[i].0.as_str(), name) {
                assert(self@[i as int].0 == name@);
                return true;
            }
            i += 1;
        }
        false
    }
}

/// Adds a remote, unless the name is taken.
pub fn add_remote(config: &mut RemoteConfig, name: &str, url: &str, added_at: &Timestamp) -> (r:
    Result<(), String>)
    ensures
        has_remote(old(config)@, name@) ==> r is Err && r->Err_0@ == exists_message(name@)
            && final(config)@ == old(config)@,
        !has_remote(old(config)@, name@) ==> r is Ok && final(config)@ == old(config)@.push(
            (name@, RemoteView { url: url@, added_at: added_at@.header_stamp() }),
        ),
{
    if config.contains(name) {
        let a = joined("Remote '", name);
        let b = joined(a.as_str(), "' already exists. Use 'gitehr remote remove ");
        let c = joined(b.as_str(), name);
        return Err(joined(c.as_str(), "' first."));
    }
    let entry = RemoteEntry { url: url.to_owned(), added_at: added_at.header_stamp() };
    config.remotes.push((name.to_owned(), entry));
    Ok(())
}

/// Removes the remote of a name, which must be there.
pub fn remove_remote(config: &mut RemoteConfig, name: &str) -> (r: Result<(), String>)
    ensures
        !has_remote(old(config)@, name@) ==> r is Err && r->Err_0@ == missing_message(name@)
            && final(config)@ == old(config)@,
        has_remote(old(config)@, name@) ==> r is Ok && final(config)@ == without(
            old(config)@,
            name@,
            old(config)@.len() as int,
        ),
{
    if !config.contains(name) {
        let a = joined("Remote '", name);
        return Err(joined(a.as_str(), "' does not exist."));
    }
    let ghost before = config@;
    let mut kept: Vec<(String, RemoteEntry)> = Vec::new();
    let ghost mut kept_view: Seq<(Seq<char>, RemoteView)> = Seq::empty();
    let mut i: usize = 0;
    while i < config.remotes.len()
        invariant
            i <= config.remotes.len(),
            config@ == before,
            kept_view == without(before, name@, i as int),
            kept.len() == kept_view.len(),
            forall|k: int| 0 <= k < kept.len() ==> ((#[trigger] kept[k]).0@, kept[k].1@) == kept_view[k],
        decreases config.remotes.len() - i,
    {
        let item = &config.remotes[i];
        if !same_text(item.0.as_str(), name) {
            let entry = RemoteEntry { url: item.1.url.clone(), added_at: item.1.added_at.clone() };
            kept.push((item.0.clone(), entry));
            proof {
                kept_view = kept_view.push((item.0@, item.1@));
            }
        }
        i += 1;
    }
    config.remotes = kept;
    Ok(())
}

/// The line of one remote in the list.
pub open spec fn remote_line(r: (Seq<char>, RemoteView)) -> Seq<char> {
    "  "@ + r.0 + " -> "@ + r.1.url
}

/// The list of remotes, line by line.
pub open spec fn remote_lines(remotes: Seq<(Seq<char>, RemoteView)>) -> Seq<Seq<char>> {
    if remotes.len() == 0 {
        seq!["No remotes configured."@, "Use 'gitehr remote add <name> <url>' to add one."@]
    } else {
        seq!["Configured remotes:"@] + Seq::new(remotes.len(), |i: int| remote_line(remotes[i]))
    }
}

/// The list of remotes, line by line.
pub fn list_remotes(config: &RemoteConfig) -> (r: Vec<String>)
    ensures
        crate::entry::texts(r) == remote_lines(config@),
{
    let mut out: Vec<String> = Vec::new();
    if config.remotes.len() == 0 {
        out.push("No remotes configured.".to_owned());
        out.push("Use 'gitehr remote add <name> <url>' to add one.".to_owned());
        return out;
    }
    out.push("Configured remotes:".to_owned());
    let mut i: usize = 0;
    while i < config.remotes.len()
        invariant
            i <= config.remotes.len(),
            out.len() == i + 1,
            out[0]@ == "Configured remotes:"@,
            forall|k: int| 0 <= k < i ==> (#[trigger] out[k + 1])@ == remote_line(config@[k]),
        decreases config.remotes.len() - i,
    {
        let item = &config.remotes[i];
        let a = joined("  ", item.0.as_str());
        let b = joined(a.as_str(), " -> ");
        out.push(joined(b.as_str(), item.1.url.as_str()));
        i += 1;
    }
    assert(crate::entry::texts(out) =~= remote_lines(config@)) by {
        let want = remote_lines(config@);
        assert forall|k: int| 0 <= k < out.len() implies crate::entry::texts(out)[k] == want[k] by {
            if k > 0 {
                assert(out[(k - 1) + 1]@ == remote_line(config@[k - 1]));
            }
        }
    }
    out
}

} // verus!
