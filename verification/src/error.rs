//! The errors of the library, each with its message.

use vstd::prelude::*;
use crate::text::joined;

verus! {

/// Why an entry was not written.
#[derive(Debug, Clone)]
pub enum JournalError {
    /// The request names no patient.
    MissingPatientId,
    /// The request lacks the author's id or name.
    MissingAuthor,
    /// The entry to correct is not in the patient's partition.
    MissingCorrectionTarget { correction_of: String },
    /// The partition holds an entry of that file name already.
    DuplicateEntry { filename: String },
    /// The partition holds an entry of that event id already.
    DuplicateEventId { event_id: String },
    /// The header cannot be written, or does not read back as written.
    InvalidHeader { reason: String },
}

/// The mathematical value of a [`JournalError`].
pub enum JournalErrorView {
    MissingPatientId,
    MissingAuthor,
    MissingCorrectionTarget { correction_of: Seq<char> },
    DuplicateEntry { filename: Seq<char> },
    DuplicateEventId { event_id: Seq<char> },
    InvalidHeader { reason: Seq<char> },
}

impl View for JournalError {
    type V = JournalErrorView;

    open spec fn view(&self) -> JournalErrorView {
        match self {
            JournalError::MissingPatientId => JournalErrorView::MissingPatientId,
            JournalError::MissingAuthor => JournalErrorView::MissingAuthor,
            JournalError::MissingCorrectionTarget { correction_of } => {
                JournalErrorView::MissingCorrectionTarget { correction_of: correction_of@ }
            },
            JournalError::DuplicateEntry { filename } => JournalErrorView::DuplicateEntry {
                filename: filename@,
            },
            JournalError::DuplicateEventId { event_id } => JournalErrorView::DuplicateEventId {
                event_id: event_id@,
            },
            JournalError::InvalidHeader { reason } => JournalErrorView::InvalidHeader {
                reason: reason@,
            },
        }
    }
}

impl JournalErrorView {
    /// The error in words.
    pub open spec fn message(self) -> Seq<char> {
        match self {
            JournalErrorView::MissingPatientId => "patient_id is required for journal entries"@,
            JournalErrorView::MissingAuthor => "author id and name are required"@,
            JournalErrorView::MissingCorrectionTarget { correction_of } => "correction target '"@
                + correction_of + "' does not exist"@,
            JournalErrorView::DuplicateEntry { filename } => "journal entry "@ + filename
                + " exists already"@,
            JournalErrorView::DuplicateEventId { event_id } => "event id '"@ + event_id
                + "' is taken"@,
            JournalErrorView::InvalidHeader { reason } => "invalid journal header: "@ + reason,
        }
    }

    /// Whether the request itself was at fault, before the journal was looked at.
    pub open spec fn is_validation(self) -> bool {
        self is MissingPatientId || self is MissingAuthor
    }
}

impl JournalError {
    /// The error in words.
    pub fn message(&self) -> (r: String)
        ensures
            r@ == self@.message(),
    {
        match self {
            JournalError::MissingPatientId => "patient_id is required for journal entries".to_owned(),
            JournalError::MissingAuthor => "author id and name are required".to_owned(),
            JournalError::MissingCorrectionTarget { correction_of } => {
                let a = joined("correction target '", correction_of.as_str());
                joined(a.as_str(), "' does not exist")
            },
            JournalError::DuplicateEntry { filename } => {
                let a = joined("journal entry ", filename.as_str());
                joined(a.as_str(), " exists already")
            },
            JournalError::DuplicateEventId { event_id } => {
                let a = joined("event id '", event_id.as_str());
                joined(a.as_str(), "' is taken")
            },
            JournalError::InvalidHeader { reason } => joined(
                "invalid journal header: ",
                reason.as_str(),
            ),
        }
    }

    /// Whether the request itself was at fault, before the journal was looked at.
    pub fn is_validation(&self) -> (r: bool)
        ensures
            r == self@.is_validation(),
    {
        match self {
            JournalError::MissingPatientId => true,
            JournalError::MissingAuthor => true,
            _ => false,
        }
    }
}

/// What verification found wrong.
#[derive(Debug, Clone)]
pub enum VerifyError {
    /// There is no journal to verify.
    MissingJournal,
    /// An entry cannot be read.
    InvalidEntry { entry_file: String, reason: String },
    /// An entry names another patient than the partition it lies in.
    PatientMismatch { entry_file: String, expected: String, found: String },
    /// An entry corrects an event that no earlier entry of the partition has.
    MissingCorrectionTarget { entry_file: String, correction_of: String },
    /// An entry names a parent digest that no earlier entry of the partition has.
    ParentNotFound { entry_file: String, parent_hash: String },
    /// An entry names a parent file that is not an earlier entry with the
    /// parent digest.
    BrokenChain { entry_file: String, expected: String, found: String },
}

/// The mathematical value of a [`VerifyError`].
pub enum VerifyErrorView {
    MissingJournal,
    InvalidEntry { entry_file: Seq<char>, reason: Seq<char> },
    PatientMismatch { entry_file: Seq<char>, expected: Seq<char>, found: Seq<char> },
    MissingCorrectionTarget { entry_file: Seq<char>, correction_of: Seq<char> },
    ParentNotFound { entry_file: Seq<char>, parent_hash: Seq<char> },
    BrokenChain { entry_file: Seq<char>, expected: Seq<char>, found: Seq<char> },
}

impl View for VerifyError {
    type V = VerifyErrorView;

    open spec fn view(&self) -> VerifyErrorView {
        match self {
            VerifyError::MissingJournal => VerifyErrorView::MissingJournal,
            VerifyError::InvalidEntry { entry_file, reason } => VerifyErrorView::InvalidEntry {
                entry_file: entry_file@,
                reason: reason@,
            },
            VerifyError::PatientMismatch { entry_file, expected, found } => {
                VerifyErrorView::PatientMismatch {
                    entry_file: entry_file@,
                    expected: expected@,
                    found: found@,
                }
            },
            VerifyError::MissingCorrectionTarget { entry_file, correction_of } => {
                VerifyErrorView::MissingCorrectionTarget {
                    entry_file: entry_file@,
                    correction_of: correction_of@,
                }
            },
            VerifyError::ParentNotFound { entry_file, parent_hash } => {
                VerifyErrorView::ParentNotFound {
                    entry_file: entry_file@,
                    parent_hash: parent_hash@,
                }
            },
            VerifyError::BrokenChain { entry_file, expected, found } => {
                VerifyErrorView::BrokenChain {
                    entry_file: entry_file@,
                    expected: expected@,
                    found: found@,
                }
            },
        }
    }
}

impl VerifyErrorView {
    /// The file of the entry that failed; none where the journal is missing.
    pub open spec fn entry_file(self) -> Option<Seq<char>> {
        match self {
            VerifyErrorView::MissingJournal => None,
            VerifyErrorView::InvalidEntry { entry_file, reason } => Some(entry_file),
            VerifyErrorView::PatientMismatch { entry_file, expected, found } => Some(entry_file),
            VerifyErrorView::MissingCorrectionTarget { entry_file, correction_of } => Some(
                entry_file,
            ),
            VerifyErrorView::ParentNotFound { entry_file, parent_hash } => Some(entry_file),
            VerifyErrorView::BrokenChain { entry_file, expected, found } => Some(entry_file),
        }
    }

    /// Whether the finding is one of linkage: an entry that reads well but
    /// does not fit the journal round it.
    pub open spec fn is_linkage(self) -> bool {
        self is PatientMismatch || self is MissingCorrectionTarget || self is ParentNotFound
            || self is BrokenChain
    }

    /// The kind of the finding, by name.
    pub open spec fn kind(self) -> Seq<char> {
        match self {
            VerifyErrorView::MissingJournal => "MissingJournal"@,
            VerifyErrorView::InvalidEntry { entry_file, reason } => "InvalidEntry"@,
            VerifyErrorView::PatientMismatch { entry_file, expected, found } => "PatientMismatch"@,
            VerifyErrorView::MissingCorrectionTarget { entry_file, correction_of } => {
                "MissingCorrectionTarget"@
            },
            VerifyErrorView::ParentNotFound { entry_file, parent_hash } => "ParentNotFound"@,
            VerifyErrorView::BrokenChain { entry_file, expected, found } => "BrokenChain"@,
        }
    }

    /// The finding in words.
    pub open spec fn message(self) -> Seq<char> {
        match self {
            VerifyErrorView::MissingJournal => "journal directory not found"@,
            VerifyErrorView::InvalidEntry { entry_file, reason } => "invalid entry "@ + entry_file
                + ": "@ + reason,
            VerifyErrorView::PatientMismatch { entry_file, expected, found } => {
                "patient mismatch in "@ + entry_file + ": expected "@ + expected + ", found "@
                    + found
            },
            VerifyErrorView::MissingCorrectionTarget { entry_file, correction_of } => {
                "correction target '"@ + correction_of + "' referenced in "@ + entry_file
                    + " does not exist"@
            },
            VerifyErrorView::ParentNotFound { entry_file, parent_hash } => "parent hash "@
                + parent_hash + " referenced in "@ + entry_file + " matches no earlier entry"@,
            VerifyErrorView::BrokenChain { entry_file, expected, found } => "broken chain in "@
                + entry_file + ": expected parent "@ + expected + ", found "@ + found,
        }
    }
}

impl VerifyError {
    /// The file of the entry that failed; none where the journal is missing.
    pub fn entry_file(&self) -> (r: Option<String>)
        ensures
            match r {
                Some(f) => self@.entry_file() == Some(f@),
                None => self@.entry_file() is None,
            },
    {
        match self {
            VerifyError::MissingJournal => None,
            VerifyError::InvalidEntry { entry_file, reason } => Some(entry_file.clone()),
            VerifyError::PatientMismatch { entry_file, expected, found } => Some(
                entry_file.clone(),
            ),
            VerifyError::MissingCorrectionTarget { entry_file, correction_of } => Some(
                entry_file.clone(),
            ),
            VerifyError::ParentNotFound { entry_file, parent_hash } => Some(entry_file.clone()),
            VerifyError::BrokenChain { entry_file, expected, found } => Some(entry_file.clone()),
        }
    }

    /// Whether the finding is one of linkage.
    pub fn is_linkage(&self) -> (r: bool)
        ensures
            r == self@.is_linkage(),
    {
        match self {
            VerifyError::MissingJournal => false,
            VerifyError::InvalidEntry { entry_file, reason } => false,
            _ => true,
        }
    }

    /// The kind of the finding, by name.
    pub fn kind(&self) -> (r: String)
        ensures
            r@ == self@.kind(),
    {
        match self {
            VerifyError::MissingJournal => "MissingJournal".to_owned(),
            VerifyError::InvalidEntry { entry_file, reason } => "InvalidEntry".to_owned(),
            VerifyError::PatientMismatch { entry_file, expected, found } => {
                "PatientMismatch".to_owned()
            },
            VerifyError::MissingCorrectionTarget { entry_file, correction_of } => {
                "MissingCorrectionTarget".to_owned()
            },
            VerifyError::ParentNotFound { entry_file, parent_hash } => "ParentNotFound".to_owned(),
            VerifyError::BrokenChain { entry_file, expected, found } => "BrokenChain".to_owned(),
        }
    }

    /// The finding in words.
    pub fn message(&self) -> (r: String)
        ensures
            r@ == self@.message(),
    {
        match self {
            VerifyError::MissingJournal => "journal directory not found".to_owned(),
            VerifyError::InvalidEntry { entry_file, reason } => {
                let a = joined("invalid entry ", entry_file.as_str());
                let b = joined(a.as_str(), ": ");
                joined(b.as_str(), reason.as_str())
            },
            VerifyError::PatientMismatch { entry_file, expected, found } => {
                let a = joined("patient mismatch in ", entry_file.as_str());
                let b = joined(a.as_str(), ": expected ");
                let c = joined(b.as_str(), expected.as_str());
                let d = joined(c.as_str(), ", found ");
                joined(d.as_str(), found.as_str())
            },
            VerifyError::MissingCorrectionTarget { entry_file, correction_of } => {
                let a = joined("correction target '", correction_of.as_str());
                let b = joined(a.as_str(), "' referenced in ");
                let c = joined(b.as_str(), entry_file.as_str());
                joined(c.as_str(), " does not exist")
            },
            VerifyError::ParentNotFound { entry_file, parent_hash } => {
                let a = joined("parent hash ", parent_hash.as_str());
                let b = joined(a.as_str(), " referenced in ");
                let c = joined(b.as_str(), entry_file.as_str());
                joined(c.as_str(), " matches no earlier entry")
            },
            VerifyError::BrokenChain { entry_file, expected, found } => {
                let a = joined("broken chain in ", entry_file.as_str());
                let b = joined(a.as_str(), ": expected parent ");
                let c = joined(b.as_str(), expected.as_str());
                let d = joined(c.as_str(), ", found ");
                joined(d.as_str(), found.as_str())
            },
        }
    }
}

/// Why a directory of the layout could not be made.
#[derive(Debug, Clone)]
pub enum FsError {
    CreateDir { path: String, reason: String },
}

impl FsError {
    /// The error in words.
    pub open spec fn message_spec(self) -> Seq<char> {
        match self {
            FsError::CreateDir { path, reason } => "failed to create directory "@ + path@,
        }
    }

    /// The error in words.
    pub fn message(&self) -> (r: String)
        ensures
            r@ == self.message_spec(),
    {
        match self {
            FsError::CreateDir { path, reason } => joined(
                "failed to create directory ",
                path.as_str(),
            ),
        }
    }
}

/// Why the configuration file could not be handled.
#[derive(Debug, Clone)]
pub enum ConfigError {
    Read { path: String, reason: String },
    Write { path: String, reason: String },
    CreateDir { path: String, reason: String },
}

impl ConfigError {
    /// The error in words.
    pub open spec fn message_spec(self) -> Seq<char> {
        match self {
            ConfigError::Read { path, reason } => "failed to read config at "@ + path@,
            ConfigError::Write { path, reason } => "failed to write config at "@ + path@,
            ConfigError::CreateDir { path, reason } => "failed to create directory "@ + path@
                + " for config"@,
        }
    }

    /// The error in words.
    pub fn message(&self) -> (r: String)
        ensures
            r@ == self.message_spec(),
    {
        match self {
            ConfigError::Read { path, reason } => joined("failed to read config at ", path.as_str()),
            ConfigError::Write { path, reason } => joined(
                "failed to write config at ",
                path.as_str(),
            ),
            ConfigError::CreateDir { path, reason } => {
                let a = joined("failed to create directory ", path.as_str());
                joined(a.as_str(), " for config")
            },
        }
    }
}

/// Why the git repository could not be had.
#[derive(Debug, Clone)]
pub enum RepoError {
    Discover(String),
    Init(String),
}

impl RepoError {
    /// The error in words.
    pub open spec fn message_spec(self) -> Seq<char> {
        match self {
            RepoError::Discover(_) => "failed to discover git repository"@,
            RepoError::Init(_) => "failed to initialize git repository"@,
        }
    }

    /// The error in words.
    pub fn message(&self) -> (r: String)
        ensures
            r@ == self.message_spec(),
    {
        match self {
            RepoError::Discover(_) => "failed to discover git repository".to_owned(),
            RepoError::Init(_) => "failed to initialize git repository".to_owned(),
        }
    }
}

/// Any error of the library.
#[derive(Debug, Clone)]
pub enum GitehrError {
    Repo(RepoError),
    Fs(FsError),
    Journal(JournalError),
    Verify(VerifyError),
    Config(ConfigError),
    Other(String),
}

impl GitehrError {
    /// The error in words: those of the error inside.
    pub open spec fn message_spec(self) -> Seq<char> {
        match self {
            GitehrError::Repo(e) => e.message_spec(),
            GitehrError::Fs(e) => e.message_spec(),
            GitehrError::Journal(e) => e@.message(),
            GitehrError::Verify(e) => e@.message(),
            GitehrError::Config(e) => e.message_spec(),
            GitehrError::Other(m) => m@,
        }
    }

    /// The error in words: those of the error inside.
    pub fn message(&self) -> (r: String)
        ensures
            r@ == self.message_spec(),
    {
        match self {
            GitehrError::Repo(e) => e.message(),
            GitehrError::Fs(e) => e.message(),
            GitehrError::Journal(e) => e.message(),
            GitehrError::Verify(e) => e.message(),
            GitehrError::Config(e) => e.message(),
            GitehrError::Other(m) => m.clone(),
        }
    }
}

} // verus!
