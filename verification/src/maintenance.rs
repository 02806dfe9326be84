//! Housekeeping of a repository: the marker of encryption, transport
//! archives, upgrades, and the configuration file.

use vstd::prelude::*;
use crate::contributor::not_a_repo_message;
use crate::contributor::require_repo;
use crate::entry::texts;
use crate::state::FileWrite;
use crate::text::contains_spec;
use crate::text::joined;
use crate::text::same_text;
use crate::text::text_contains;
use crate::text::trim_spec;
use crate::text::trimmed;
use crate::timestamp::Timestamp;

verus! {

/// Where the marker of encryption lies, from the repository root.
pub open spec fn encrypted_marker_path() -> Seq<char> {
    ".gitehr/ENCRYPTED"@
}

/// Where the version file lies, from the repository root.
pub open spec fn version_path() -> Seq<char> {
    ".gitehr/GITEHR_VERSION"@
}

/// The source of the key where none is named.
pub open spec fn key_source_or_local(key_source: Option<Seq<char>>) -> Seq<char> {
    match key_source {
        Some(k) => k,
        None => "local"@,
    }
}

/// What the marker of encryption says.
pub open spec fn encrypted_marker(at: Seq<char>, key_source: Seq<char>) -> Seq<char> {
    "encrypted_at="@ + at + "\nkey_source="@ + key_source + "\n"@
}

/// The marker to write to mark a repository as encrypted; nothing outside a
/// repository, or where the marker is there already.
pub fn encrypt_repository(
    is_repo: bool,
    is_encrypted: bool,
    key_source: Option<&str>,
    now: &Timestamp,
) -> (r: Result<FileWrite, String>)
    ensures
        !is_repo ==> r is Err && r->Err_0@ == not_a_repo_message(),
        is_repo && is_encrypted ==> r is Err && r->Err_0@ == "Repository is already encrypted."@,
        is_repo && !is_encrypted ==> r is Ok && r->Ok_0.path@ == encrypted_marker_path()
            && r->Ok_0.content@ == encrypted_marker(
            now@.header_stamp(),
            key_source_or_local(
                match key_source {
                    Some(k) => Some(k@),
                    None => None,
                },
            ),
        ),
{
    match require_repo(is_repo) {
        Err(e) => {
            return Err(e);
        },
        Ok(_) => {},
    }
    if is_encrypted {
        return Err("Repository is already encrypted.".to_owned());
    }
    let key = match key_source {
        Some(k) => k,
        None => "local",
    };
    let stamp = now.header_stamp();
    let a = joined("encrypted_at=", stamp.as_str());
    let b = joined(a.as_str(), "\nkey_source=");
    let c = joined(b.as_str(), key);
    Ok(FileWrite { path: ".gitehr/ENCRYPTED".to_owned(), content: joined(c.as_str(), "\n") })
}

/// The marker to remove to mark a repository as decrypted; nothing outside a
/// repository, or where there is no marker.
pub fn decrypt_repository(is_repo: bool, is_encrypted: bool) -> (r: Result<String, String>)
    ensures
        !is_repo ==> r is Err && r->Err_0@ == not_a_repo_message(),
        is_repo && !is_encrypted ==> r is Err && r->Err_0@ == "Repository is not encrypted."@,
        is_repo && is_encrypted ==> r is Ok && r->Ok_0@ == encrypted_marker_path(),
{
    match require_repo(is_repo) {
        Err(e) => {
            return Err(e);
        },
        Ok(_) => {},
    }
    if !is_encrypted {
        return Err("Repository is not encrypted.".to_owned());
    }
    Ok(".gitehr/ENCRYPTED".to_owned())
}

/// The name of an archive made at a time, where none is given.
pub open spec fn default_archive_name(at: Seq<char>) -> Seq<char> {
    "gitehr-transport-"@ + at + ".tar.gz"@
}

/// The directories that go into a transport archive.
pub open spec fn transport_dirs_spec() -> Seq<Seq<char>> {
    seq!["journal"@, "state"@, "imaging"@, "documents"@, ".gitehr"@]
}

/// What to pack, and where to.
#[derive(Debug, Clone)]
pub struct ArchivePlan {
    pub output: String,
    pub dirs: Vec<String>,
}

/// The plan of a transport archive: the file to write, which is named after
/// the time where no name is given, and the directories to pack; nothing
/// outside a repository.
pub fn create_transport_archive(is_repo: bool, output_path: Option<&str>, now: &Timestamp) -> (r:
    Result<ArchivePlan, String>)
    ensures
        !is_repo ==> r is Err && r->Err_0@ == not_a_repo_message(),
        is_repo ==> r is Ok && texts(r->Ok_0.dirs) == transport_dirs_spec() && r->Ok_0.output@
            == (match output_path {
            Some(p) => p@,
            None => default_archive_name(now@.compact_stamp()),
        }),
{
    match require_repo(is_repo) {
        Err(e) => {
            return Err(e);
        },
        Ok(_) => {},
    }
    let output = match output_path {
        Some(p) => p.to_owned(),
        None => {
            let stamp = now.compact_stamp();
            let a = joined("gitehr-transport-", stamp.as_str());
            joined(a.as_str(), ".tar.gz")
        },
    };
    let mut dirs: Vec<String> = Vec::new();
    dirs.push("journal".to_owned());
    dirs.push("state".to_owned());
    dirs.push("imaging".to_owned());
    dirs.push("documents".to_owned());
    dirs.push(".gitehr".to_owned());
    Ok(ArchivePlan { output, dirs })
}

/// Where a transport archive is unpacked where no directory is given.
pub fn extract_transport_archive(output_dir: Option<&str>) -> (r: String)
    ensures
        r@ == (match output_dir {
            Some(d) => d@,
            None => "."@,
        }),
{
    match output_dir {
        Some(d) => d.to_owned(),
        None => ".".to_owned(),
    }
}

/// The version that the version file holds.
pub fn get_current_version(read: Option<&str>) -> (r: Option<String>)
    ensures
        match read {
            Some(text) => r is Some && r->0@ == trim_spec(text@),
            None => r is None,
        },
{
    match read {
        Some(text) => Some(trimmed(text)),
        None => None,
    }
}

/// What an upgrade records in the journal.
pub open spec fn upgrade_message(current: Option<Seq<char>>, new_version: Seq<char>) -> Seq<char> {
    "Repository upgraded from "@ + (match current {
        Some(c) => c,
        None => "unknown"@,
    }) + " to "@ + new_version
}

/// What an upgrade does: the version to write, and the note for the journal.
#[derive(Debug, Clone)]
pub struct UpgradePlan {
    pub version_file: FileWrite,
    pub message: String,
}

/// The plan of an upgrade to `new_version`: nothing to do where the
/// repository is at that version; nothing at all outside a repository.
pub fn upgrade_repository(is_repo: bool, current: Option<&str>, new_version: &str) -> (r: Result<
    Option<UpgradePlan>,
    String,
>)
    ensures
        !is_repo ==> r is Err && r->Err_0@ == not_a_repo_message(),
        is_repo ==> r is Ok,
        is_repo && current is Some && current->0@ == new_version@ ==> r->Ok_0 is None,
        is_repo && !(current is Some && current->0@ == new_version@) ==> r->Ok_0 is Some && ({
            let plan = r->Ok_0->0;
            &&& plan.version_file.path@ == version_path()
            &&& plan.version_file.content@ == new_version@
            &&& plan.message@ == upgrade_message(
                match current {
                    Some(c) => Some(c@),
                    None => None,
                },
                new_version@,
            )
        }),
{
    match require_repo(is_repo) {
        Err(e) => {
            return Err(e);
        },
        Ok(_) => {},
    }
    let same = match current {
        Some(c) => same_text(c, new_version),
        None => false,
    };
    if same {
        return Ok(None);
    }
    let from = match current {
        Some(c) => c,
        None => "unknown",
    };
    let a = joined("Repository upgraded from ", from);
    let b = joined(a.as_str(), " to ");
    let message = joined(b.as_str(), new_version);
    Ok(
        Some(
            UpgradePlan {
                version_file: FileWrite {
                    path: ".gitehr/GITEHR_VERSION".to_owned(),
                    content: new_version.to_owned(),
                },
                message,
            },
        ),
    )
}

/// The version to write where the bundled binary is replaced; nothing
/// outside a repository.
pub fn upgrade_binary(is_repo: bool, cli_version: &str) -> (r: Result<FileWrite, String>)
    ensures
        !is_repo ==> r is Err && r->Err_0@ == not_a_repo_message(),
        is_repo ==> r is Ok && r->Ok_0.path@ == version_path() && r->Ok_0.content@ == cli_version@,
{
    match require_repo(is_repo) {
        Err(e) => Err(e),
        Ok(_) => Ok(
            FileWrite { path: ".gitehr/GITEHR_VERSION".to_owned(), content: cli_version.to_owned() },
        ),
    }
}

/// Whether a configuration file is complete: it names the repository and
/// the time of its creation.
pub open spec fn config_complete(contents: Seq<char>) -> bool {
    contains_spec(contents, "repo_id"@) && contains_spec(contents, "created_at"@)
}

/// A new configuration file.
pub open spec fn config_template(repo_id: Seq<char>, created_at: Seq<char>) -> Seq<char> {
    "repo_id = \""@ + repo_id + "\"\ncreated_at = \""@ + created_at
        + "\"\ntype = \"organisation\"\n\n[journal]\nenabled = true\n\n[imaging]\nenabled = true\n\n[state]\nenabled = true\n\nWelcome to GitEHR! Welcome to the future!\n"@
}

/// The configuration file to write: none where the one that is there is
/// complete; else a new one with the given id and time of creation.
pub fn ensure_config(existing: Option<&str>, repo_id: &str, created_at: &str) -> (r: Option<
    String,
>)
    ensures
        existing is Some && config_complete(existing->0@) ==> r is None,
        !(existing is Some && config_complete(existing->0@)) ==> r is Some && r->0@
            == config_template(repo_id@, created_at@),
{
    let complete = match existing {
        Some(contents) => text_contains(contents, "repo_id") && text_contains(
            contents,
            "created_at",
        ),
        None => false,
    };
    if complete {
        return None;
    }
    let a = joined("repo_id = \"", repo_id);
    let b = joined(a.as_str(), "\"\ncreated_at = \"");
    let c = joined(b.as_str(), created_at);
    Some(
        joined(
            c.as_str(),
            "\"\ntype = \"organisation\"\n\n[journal]\nenabled = true\n\n[imaging]\nenabled = true\n\n[state]\nenabled = true\n\nWelcome to GitEHR! Welcome to the future!\n",
        ),
    )
}

/// What is said once a repository has been set up.
pub fn init_message(root: &str, git_dir: &str) -> (r: String)
    ensures
        r@ == "Initialized GitEHR repository at '"@ + root@ + "' (Git dir: '"@ + git_dir@ + "')"@,
{
    let a = joined("Initialized GitEHR repository at '", root);
    let b = joined(a.as_str(), "' (Git dir: '");
    let c = joined(b.as_str(), git_dir);
    joined(c.as_str(), "')")
}

/// Where the bundled graphical front end lies, from the repository root.
pub open spec fn bundled_gui_path() -> Seq<char> {
    ".gitehr/gitehr-gui"@
}

/// The graphical front end to start: the bundled one where it is there,
/// else the one that was found on the search path, if any.
pub fn find_gui_binary(bundled_exists: bool, on_path: Option<&str>) -> (r: Option<String>)
    ensures
        bundled_exists ==> r is Some && r->0@ == bundled_gui_path(),
        !bundled_exists ==> match on_path {
            Some(p) => r is Some && r->0@ == p@,
            None => r is None,
        },
{
    if bundled_exists {
        Some(".gitehr/gitehr-gui".to_owned())
    } else {
        match on_path {
            Some(p) => Some(p.to_owned()),
            None => None,
        }
    }
}

} // verus!
