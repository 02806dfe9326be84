//! The git commands that the repository runs, and what their outcomes mean.

use vstd::prelude::*;
use crate::entry::texts;
use crate::text::joined;
use crate::text::trim_spec;
use crate::text::trimmed;

verus! {

/// How an attempt to run git ended.
#[derive(Debug, Clone)]
pub enum GitRun {
    /// There is no git to run.
    NotFound,
    /// Git could not be started; why.
    SpawnFailed(String),
    /// Git ran and ended.
    Exited { success: bool, stdout: String, stderr: String },
}

/// The arguments that make a new git repository.
pub fn git_init() -> (r: Vec<String>)
    ensures
        texts(r) == seq!["init"@],
{
    let mut args: Vec<String> = Vec::new();
    args.push("init".to_owned());
    args
}

/// The arguments that stage a file.
pub fn git_add(file_path: &str) -> (r: Vec<String>)
    ensures
        texts(r) == seq!["add"@, file_path@],
{
    let mut args: Vec<String> = Vec::new();
    args.push("add".to_owned());
    args.push(file_path.to_owned());
    args
}

/// The arguments that commit with a message.
pub fn git_commit(message: &str) -> (r: Vec<String>)
    ensures
        texts(r) == seq!["commit"@, "-m"@, message@],
{
    let mut args: Vec<String> = Vec::new();
    args.push("commit".to_owned());
    args.push("-m".to_owned());
    args.push(message.to_owned());
    args
}

/// The arguments that ask git for its version.
pub fn git_version_args() -> (r: Vec<String>)
    ensures
        texts(r) == seq!["--version"@],
{
    let mut args: Vec<String> = Vec::new();
    args.push("--version".to_owned());
    args
}

/// Why a git command failed, if it did.
pub open spec fn git_failure(run: GitRun) -> Option<Seq<char>> {
    match run {
        GitRun::NotFound => Some(
            "Git binary not found. Please install git to use this feature."@,
        ),
        GitRun::SpawnFailed(why) => Some("Failed to execute git command: "@ + why@),
        GitRun::Exited { success, stdout, stderr } => if success {
            None
        } else {
            Some("Git command failed: "@ + trim_spec(stderr@))
        },
    }
}

/// What the outcome of a git command means: success, or the failure in words.
pub fn run_git_command(run: &GitRun) -> (r: Result<(), String>)
    ensures
        match r {
            Ok(_) => git_failure(*run) is None,
            Err(e) => git_failure(*run) == Some(e@),
        },
{
    match run {
        GitRun::NotFound => Err(
            "Git binary not found. Please install git to use this feature.".to_owned(),
        ),
        GitRun::SpawnFailed(why) => Err(joined("Failed to execute git command: ", why.as_str())),
        GitRun::Exited { success, stdout, stderr } => {
            if *success {
                Ok(())
            } else {
                let t = trimmed(stderr.as_str());
                Err(joined("Git command failed: ", t.as_str()))
            }
        },
    }
}

/// The version that git printed, where it ran and succeeded.
pub fn get_git_version(run: &GitRun) -> (r: Option<String>)
    ensures
        match *run {
            GitRun::Exited { success, stdout, stderr } => if success {
                r is Some && r->0@ == trim_spec(stdout@)
            } else {
                r is None
            },
            _ => r is None,
        },
{
    match run {
        GitRun::Exited { success, stdout, stderr } => {
            if *success {
                Some(trimmed(stdout.as_str()))
            } else {
                None
            }
        },
        _ => None,
    }
}

} // verus!
