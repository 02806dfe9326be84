//! The records of the journal: what an entry's header holds, and what a
//! caller hands over to have an entry written.

use vstd::prelude::*;
use crate::text::same_text;
use crate::timestamp::Moment;
use crate::timestamp::Timestamp;

verus! {

/// The view of an optional string.
pub open spec fn opt_text(o: Option<String>) -> Option<Seq<char>> {
    match o {
        Some(s) => Some(s@),
        None => None,
    }
}

/// The views of a vector of strings.
pub open spec fn texts(v: Vec<String>) -> Seq<Seq<char>> {
    Seq::new(v.len() as nat, |i: int| v[i]@)
}

/// Who wrote an entry, as known when it was written.
#[derive(Debug, Clone)]
pub struct AuthorInfo {
    pub id: String,
    pub name: String,
    pub role: Option<String>,
}

/// The mathematical value of an [`AuthorInfo`].
pub struct AuthorView {
    pub id: Seq<char>,
    pub name: Seq<char>,
    pub role: Option<Seq<char>>,
}

impl View for AuthorInfo {
    type V = AuthorView;

    open spec fn view(&self) -> AuthorView {
        AuthorView { id: self.id@, name: self.name@, role: opt_text(self.role) }
    }
}

/// Where and within which encounter or episode an entry was made.
#[derive(Debug, Clone)]
pub struct ContextInfo {
    pub location: Option<String>,
    pub encounter_id: Option<String>,
    pub episode_id: Option<String>,
}

/// The mathematical value of a [`ContextInfo`].
pub struct ContextView {
    pub location: Option<Seq<char>>,
    pub encounter_id: Option<Seq<char>>,
    pub episode_id: Option<Seq<char>>,
}

impl View for ContextInfo {
    type V = ContextView;

    open spec fn view(&self) -> ContextView {
        ContextView {
            location: opt_text(self.location),
            encounter_id: opt_text(self.encounter_id),
            episode_id: opt_text(self.episode_id),
        }
    }
}

/// One coded diagnosis or procedure.
#[derive(Debug, Clone)]
pub struct CodeItem {
    pub system: String,
    pub code: String,
    pub display: String,
}

/// The mathematical value of a [`CodeItem`].
pub struct CodeView {
    pub system: Seq<char>,
    pub code: Seq<char>,
    pub display: Seq<char>,
}

impl View for CodeItem {
    type V = CodeView;

    open spec fn view(&self) -> CodeView {
        CodeView { system: self.system@, code: self.code@, display: self.display@ }
    }
}

/// The views of a vector of codes.
pub open spec fn code_views(v: Vec<CodeItem>) -> Seq<CodeView> {
    Seq::new(v.len() as nat, |i: int| v[i]@)
}

/// The coded diagnoses and procedures of an entry.
#[derive(Debug, Clone)]
pub struct JournalCodes {
    pub diagnoses: Vec<CodeItem>,
    pub procedures: Vec<CodeItem>,
}

/// The mathematical value of a [`JournalCodes`].
pub struct CodesView {
    pub diagnoses: Seq<CodeView>,
    pub procedures: Seq<CodeView>,
}

impl View for JournalCodes {
    type V = CodesView;

    open spec fn view(&self) -> CodesView {
        CodesView {
            diagnoses: code_views(self.diagnoses),
            procedures: code_views(self.procedures),
        }
    }
}

/// The imaging and document artifacts that an entry refers to, by path.
#[derive(Debug, Clone)]
pub struct JournalLinks {
    pub related_imaging: Vec<String>,
    pub related_files: Vec<String>,
}

/// The mathematical value of a [`JournalLinks`].
pub struct LinksView {
    pub related_imaging: Seq<Seq<char>>,
    pub related_files: Seq<Seq<char>>,
}

impl View for JournalLinks {
    type V = LinksView;

    open spec fn view(&self) -> LinksView {
        LinksView {
            related_imaging: texts(self.related_imaging),
            related_files: texts(self.related_files),
        }
    }
}

/// The view of an optional context.
pub open spec fn opt_context(o: Option<ContextInfo>) -> Option<ContextView> {
    match o {
        Some(c) => Some(c@),
        None => None,
    }
}

/// The view of optional links.
pub open spec fn opt_links(o: Option<JournalLinks>) -> Option<LinksView> {
    match o {
        Some(l) => Some(l@),
        None => None,
    }
}

/// The view of optional codes.
pub open spec fn opt_codes(o: Option<JournalCodes>) -> Option<CodesView> {
    match o {
        Some(c) => Some(c@),
        None => None,
    }
}

/// The header of a stored entry.
#[derive(Debug, Clone)]
pub struct JournalEntryHeader {
    pub gitehr_event_id: String,
    pub gitehr_patient_id: String,
    pub recorded_at: Timestamp,
    pub author: AuthorInfo,
    pub context: Option<ContextInfo>,
    pub links: Option<JournalLinks>,
    pub codes: Option<JournalCodes>,
    pub correction_of: Option<String>,
    pub parent_hash: Option<String>,
    pub parent_entry: Option<String>,
}

/// The mathematical value of a [`JournalEntryHeader`].
pub struct HeaderView {
    pub event_id: Seq<char>,
    pub patient_id: Seq<char>,
    pub recorded_at: Moment,
    pub author: AuthorView,
    pub context: Option<ContextView>,
    pub links: Option<LinksView>,
    pub codes: Option<CodesView>,
    pub correction_of: Option<Seq<char>>,
    pub parent_hash: Option<Seq<char>>,
    pub parent_entry: Option<Seq<char>>,
}

impl View for JournalEntryHeader {
    type V = HeaderView;

    open spec fn view(&self) -> HeaderView {
        HeaderView {
            event_id: self.gitehr_event_id@,
            patient_id: self.gitehr_patient_id@,
            recorded_at: self.recorded_at@,
            author: self.author@,
            context: opt_context(self.context),
            links: opt_links(self.links),
            codes: opt_codes(self.codes),
            correction_of: opt_text(self.correction_of),
            parent_hash: opt_text(self.parent_hash),
            parent_entry: opt_text(self.parent_entry),
        }
    }
}

/// A request to write one entry.
#[derive(Debug, Clone)]
pub struct JournalEntryInput {
    pub patient_id: String,
    pub recorded_at: Timestamp,
    pub author: AuthorInfo,
    pub body: String,
    pub event_id: Option<String>,
    pub context: Option<ContextInfo>,
    pub links: Option<JournalLinks>,
    pub codes: Option<JournalCodes>,
    pub correction_of: Option<String>,
    pub parent_hash: Option<String>,
}

/// The mathematical value of a [`JournalEntryInput`].
pub struct RequestView {
    pub patient_id: Seq<char>,
    pub recorded_at: Moment,
    pub author: AuthorView,
    pub body: Seq<char>,
    pub event_id: Option<Seq<char>>,
    pub context: Option<ContextView>,
    pub links: Option<LinksView>,
    pub codes: Option<CodesView>,
    pub correction_of: Option<Seq<char>>,
    pub parent_hash: Option<Seq<char>>,
}

impl View for JournalEntryInput {
    type V = RequestView;

    open spec fn view(&self) -> RequestView {
        RequestView {
            patient_id: self.patient_id@,
            recorded_at: self.recorded_at@,
            author: self.author@,
            body: self.body@,
            event_id: opt_text(self.event_id),
            context: opt_context(self.context),
            links: opt_links(self.links),
            codes: opt_codes(self.codes),
            correction_of: opt_text(self.correction_of),
            parent_hash: opt_text(self.parent_hash),
        }
    }
}

impl JournalEntryInput {
    /// A request with the given time and nothing else filled in.
    pub fn new(recorded_at: Timestamp) -> (r: JournalEntryInput)
        ensures
            r@ == (RequestView {
                patient_id: Seq::<char>::empty(),
                recorded_at: recorded_at@,
                author: AuthorView {
                    id: Seq::<char>::empty(),
                    name: Seq::<char>::empty(),
                    role: None,
                },
                body: Seq::<char>::empty(),
                event_id: None,
                context: None,
                links: None,
                codes: None,
                correction_of: None,
                parent_hash: None,
            }),
    {
        JournalEntryInput {
            patient_id: String::new(),
            recorded_at,
            author: AuthorInfo { id: String::new(), name: String::new(), role: None },
            body: String::new(),
            event_id: None,
            context: None,
            links: None,
            codes: None,
            correction_of: None,
            parent_hash: None,
        }
    }
}

/// The most recent entry of a patient: its file, its digest and its path.
#[derive(Debug, Clone)]
pub struct LatestJournalEntry {
    pub filename: String,
    pub hash: String,
    pub path: String,
}

/// Whether two optional strings hold the same text, or both none.
pub fn same_opt_text(a: &Option<String>, b: &Option<String>) -> (r: bool)
    ensures
        r == (opt_text(*a) == opt_text(*b)),
{
    match (a, b) {
        (Some(x), Some(y)) => same_text(x.as_str(), y.as_str()),
        (None, None) => true,
        _ => false,
    }
}

/// Whether two vectors of strings hold the same texts in the same order.
pub fn same_texts(a: &Vec<String>, b: &Vec<String>) -> (r: bool)
    ensures
        r == (texts(*a) == texts(*b)),
{
    if a.len() != b.len() {
        return false;
    }
    let mut i: usize = 0;
    while i < a.len()
        invariant
            i <= a.len(),
            a.len() == b.len(),
            forall|k: int| 0 <= k < i ==> a[k]@ == b[k]@,
        decreases a.len() - i,
    {
        if a[i] != b[i] {
            assert(texts(*b)[i as int] == b[i as int]@);
            return false;
        }
        i += 1;
    }
    assert(texts(*a) =~= texts(*b));
    true
}

impl AuthorInfo {
    /// Whether two authors hold the same values.
    pub fn same(&self, other: &AuthorInfo) -> (r: bool)
        ensures
            r == (self@ == other@),
    {
        self.id == other.id && self.name == other.name && same_opt_text(&self.role, &other.role)
    }
}

impl ContextInfo {
    /// Whether two contexts hold the same values.
    pub fn same(&self, other: &ContextInfo) -> (r: bool)
        ensures
            r == (self@ == other@),
    {
        same_opt_text(&self.location, &other.location) && same_opt_text(
            &self.encounter_id,
            &other.encounter_id,
        ) && same_opt_text(&self.episode_id, &other.episode_id)
    }
}

impl CodeItem {
    /// Whether two codes hold the same values.
    pub fn same(&self, other: &CodeItem) -> (r: bool)
        ensures
            r == (self@ == other@),
    {
        self.system == other.system && self.code == other.code && self.display == other.display
    }
}

/// Whether two vectors of codes hold the same codes in the same order.
pub fn same_code_items(a: &Vec<CodeItem>, b: &Vec<CodeItem>) -> (r: bool)
    ensures
        r == (code_views(*a) == code_views(*b)),
{
    if a.len() != b.len() {
        assert(code_views(*a).len() != code_views(*b).len());
        return false;
    }
    let mut i: usize = 0;
    while i < a.len()
        invariant
            i <= a.len(),
            a.len() == b.len(),
            forall|k: int| 0 <= k < i ==> a[k]@ == b[k]@,
        decreases a.len() - i,
    {
        if !a[i].same(&b[i]) {
            assert(code_views(*b)[i as int] == b[i as int]@);
            return false;
        }
        i += 1;
    }
    assert(code_views(*a) =~= code_views(*b));
    true
}

impl JournalCodes {
    /// Whether two sets of codes hold the same values.
    pub fn same(&self, other: &JournalCodes) -> (r: bool)
        ensures
            r == (self@ == other@),
    {
        same_code_items(&self.diagnoses, &other.diagnoses) && same_code_items(
            &self.procedures,
            &other.procedures,
        )
    }
}

impl JournalLinks {
    /// Whether two sets of links hold the same values.
    pub fn same(&self, other: &JournalLinks) -> (r: bool)
        ensures
            r == (self@ == other@),
    {
        same_texts(&self.related_imaging, &other.related_imaging) && same_texts(
            &self.related_files,
            &other.related_files,
        )
    }
}

impl JournalEntryHeader {
    /// Whether two headers hold the same values.
    pub fn same(&self, other: &JournalEntryHeader) -> (r: bool)
        ensures
            r == (self@ == other@),
    {
        let context_same = match (&self.context, &other.context) {
            (Some(x), Some(y)) => x.same(y),
            (None, None) => true,
            _ => false,
        };
        let links_same = match (&self.links, &other.links) {
            (Some(x), Some(y)) => x.same(y),
            (None, None) => true,
            _ => false,
        };
        let codes_same = match (&self.codes, &other.codes) {
            (Some(x), Some(y)) => x.same(y),
            (None, None) => true,
            _ => false,
        };
        self.gitehr_event_id == other.gitehr_event_id && self.gitehr_patient_id
            == other.gitehr_patient_id && self.recorded_at.same_moment(&other.recorded_at)
            && self.author.same(&other.author) && context_same && links_same && codes_same
            && same_opt_text(&self.correction_of, &other.correction_of) && same_opt_text(
            &self.parent_hash,
            &other.parent_hash,
        ) && same_opt_text(&self.parent_entry, &other.parent_entry)
    }
}

} // verus!
