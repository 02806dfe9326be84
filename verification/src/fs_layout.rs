//! Where the parts of a repository live below its root directory.

use vstd::prelude::*;
use crate::text::chars_of;
use crate::text::joined;

verus! {

/// `base` extended by the path `part`: an absolute `part` replaces `base`;
/// otherwise `part` follows `base`, after a `/` unless `base` is empty or
/// ends with one.
pub open spec fn join_spec(base: Seq<char>, part: Seq<char>) -> Seq<char> {
    if part.len() > 0 && part[0] == '/' {
        part
    } else if base.len() == 0 || base.last() == '/' {
        base + part
    } else {
        base + seq!['/'] + part
    }
}

/// `base` extended by the path `part`.
pub fn join_path(base: &str, part: &str) -> (r: String)
    ensures
        r@ == join_spec(base@, part@),
{
    let b = chars_of(base);
    let p = chars_of(part);
    if p.len() > 0 && p[0] == '/' {
        part.to_owned()
    } else if b.len() == 0 || b[b.len() - 1] == '/' {
        joined(base, part)
    } else {
        proof {
            reveal_strlit("/");
        }
        let with_sep = joined(base, "/");
        joined(with_sep.as_str(), part)
    }
}

/// The directory layout of a repository.
#[derive(Debug, Clone)]
pub struct FsLayout {
    root: String,
}

impl View for FsLayout {
    type V = Seq<char>;

    /// The root directory.
    closed spec fn view(&self) -> Seq<char> {
        self.root@
    }
}

/// The root that a layout has when none is given.
pub open spec fn default_root() -> Seq<char> {
    "gitehr_fs"@
}

/// The directory of repository metadata below a root.
pub open spec fn gitehr_dir_spec(root: Seq<char>) -> Seq<char> {
    join_spec(root, ".gitehr"@)
}

/// The configuration file below a root.
pub open spec fn config_path_spec(root: Seq<char>) -> Seq<char> {
    join_spec(gitehr_dir_spec(root), "config.toml"@)
}

/// The journal directory below a root.
pub open spec fn journal_dir_spec(root: Seq<char>) -> Seq<char> {
    join_spec(root, "journal"@)
}

/// The directory of the partitions below a root.
pub open spec fn journal_patients_dir_spec(root: Seq<char>) -> Seq<char> {
    join_spec(journal_dir_spec(root), "patients"@)
}

/// The partition of a patient below a root.
pub open spec fn patient_journal_dir_spec(root: Seq<char>, patient_id: Seq<char>) -> Seq<char> {
    join_spec(journal_patients_dir_spec(root), patient_id)
}

/// The directory of imaging artifacts below a root.
pub open spec fn imaging_dir_spec(root: Seq<char>) -> Seq<char> {
    join_spec(root, "imaging"@)
}

/// The directory of state files below a root.
pub open spec fn state_dir_spec(root: Seq<char>) -> Seq<char> {
    join_spec(root, "state"@)
}

/// The directories that a repository needs, in the order in which they are
/// made: the root, then the five below it.
pub open spec fn required_dirs_spec(root: Seq<char>) -> Seq<Seq<char>> {
    seq![
        root,
        gitehr_dir_spec(root),
        journal_dir_spec(root),
        journal_patients_dir_spec(root),
        imaging_dir_spec(root),
        state_dir_spec(root),
    ]
}

impl FsLayout {
    /// The layout below the default root.
    pub fn new() -> (r: FsLayout)
        ensures
            r@ == default_root(),
    {
        FsLayout::from_root("gitehr_fs".to_owned())
    }

    /// The layout below `root`.
    pub fn from_root(root: String) -> (r: FsLayout)
        ensures
            r@ == root@,
    {
        FsLayout { root }
    }

    /// The root directory.
    pub fn root(&self) -> (r: &str)
        ensures
            r@ == self@,
    {
        self.root.as_str()
    }

    /// The directory of repository metadata.
    pub fn gitehr_dir(&self) -> (r: String)
        ensures
            r@ == gitehr_dir_spec(self@),
    {
        join_path(self.root.as_str(), ".gitehr")
    }

    /// The repository's configuration file.
    pub fn config_path(&self) -> (r: String)
        ensures
            r@ == config_path_spec(self@),
    {
        let dir = self.gitehr_dir();
        join_path(dir.as_str(), "config.toml")
    }

    /// The journal directory.
    pub fn journal_dir(&self) -> (r: String)
        ensures
            r@ == journal_dir_spec(self@),
    {
        join_path(self.root.as_str(), "journal")
    }

    /// The directory that holds one partition for each patient.
    pub fn journal_patients_dir(&self) -> (r: String)
        ensures
            r@ == journal_patients_dir_spec(self@),
    {
        let dir = self.journal_dir();
        join_path(dir.as_str(), "patients")
    }

    /// The partition of one patient.
    pub fn patient_journal_dir(&self, patient_id: &str) -> (r: String)
        ensures
            r@ == patient_journal_dir_spec(self@, patient_id@),
    {
        let dir = self.journal_patients_dir();
        join_path(dir.as_str(), patient_id)
    }

    /// The directory of imaging artifacts.
    pub fn imaging_dir(&self) -> (r: String)
        ensures
            r@ == imaging_dir_spec(self@),
    {
        join_path(self.root.as_str(), "imaging")
    }

    /// The directory of state files.
    pub fn state_dir(&self) -> (r: String)
        ensures
            r@ == state_dir_spec(self@),
    {
        join_path(self.root.as_str(), "state")
    }

    /// The directories that must exist, in the order in which to make them.
    pub fn ensure_structure(&self) -> (r: Vec<String>)
        ensures
            r@.len() == 6,
            forall|i: int| 0 <= i < 6 ==> (#[trigger] r@[i])@ == required_dirs_spec(self@)[i],
    {
        let mut dirs: Vec<String> = Vec::new();
        dirs.push(self.root.clone());
        dirs.push(self.gitehr_dir());
        dirs.push(self.journal_dir());
        dirs.push(self.journal_patients_dir());
        dirs.push(self.imaging_dir());
        dirs.push(self.state_dir());
        dirs
    }
}

} // verus!
