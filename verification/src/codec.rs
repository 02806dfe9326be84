//! The on-disk form of an entry: a YAML header between two `---` delimiters,
//! a blank line, and the body text.

use vstd::prelude::*;
use crate::entry::AuthorInfo;
use crate::entry::AuthorView;
use crate::entry::CodeItem;
use crate::entry::CodeView;
use crate::entry::CodesView;
use crate::entry::ContextInfo;
use crate::entry::ContextView;
use crate::entry::HeaderView;
use crate::entry::JournalCodes;
use crate::entry::JournalEntryHeader;
use crate::entry::JournalLinks;
use crate::entry::LinksView;
use crate::entry::code_views;
use crate::entry::opt_text;
use crate::entry::texts;
use crate::text::chars_of;
use crate::text::joined;
use crate::text::same_text;
use crate::text::text_of_range;
use crate::timestamp::Moment;
use crate::timestamp::Timestamp;
use crate::timestamp::parsed_moment;
use crate::yaml::YamlNode;
use crate::yaml::YamlTree;
use crate::yaml::emitted_yaml;
use crate::yaml::nodes_view;
use crate::yaml::pairs_view;
use crate::yaml::parsed_yaml;

verus! {

/// The fields of a mapping, in document order.
pub type Fields = Seq<(YamlTree, YamlTree)>;

/// One field with a string for its key.
pub open spec fn field(name: Seq<char>, value: YamlTree) -> Fields {
    seq![(YamlTree::Text(name), value)]
}

/// One field that holds a string.
pub open spec fn text_field(name: Seq<char>, value: Seq<char>) -> Fields {
    field(name, YamlTree::Text(value))
}

/// A field that holds a string, left out where there is none.
pub open spec fn opt_text_field(name: Seq<char>, value: Option<Seq<char>>) -> Fields {
    match value {
        Some(v) => text_field(name, v),
        None => Seq::empty(),
    }
}

/// A sequence of strings.
pub open spec fn text_list(items: Seq<Seq<char>>) -> YamlTree {
    YamlTree::List(Seq::new(items.len(), |i: int| YamlTree::Text(items[i])))
}

/// A field that holds a sequence of strings, left out where the sequence is empty.
pub open spec fn text_list_field(name: Seq<char>, items: Seq<Seq<char>>) -> Fields {
    if items.len() == 0 {
        Seq::empty()
    } else {
        field(name, text_list(items))
    }
}

/// The mapping of one code.
pub open spec fn code_tree(c: CodeView) -> YamlTree {
    YamlTree::Record(
        text_field("system"@, c.system) + text_field("code"@, c.code) + text_field(
            "display"@,
            c.display,
        ),
    )
}

/// A sequence of codes.
pub open spec fn code_list(items: Seq<CodeView>) -> YamlTree {
    YamlTree::List(Seq::new(items.len(), |i: int| code_tree(items[i])))
}

/// A field that holds a sequence of codes, left out where the sequence is empty.
pub open spec fn code_list_field(name: Seq<char>, items: Seq<CodeView>) -> Fields {
    if items.len() == 0 {
        Seq::empty()
    } else {
        field(name, code_list(items))
    }
}

/// The mapping of an author.
pub open spec fn author_tree(a: AuthorView) -> YamlTree {
    YamlTree::Record(
        text_field("id"@, a.id) + text_field("name"@, a.name) + opt_text_field("role"@, a.role),
    )
}

/// The mapping of a context.
pub open spec fn context_tree(c: ContextView) -> YamlTree {
    YamlTree::Record(
        opt_text_field("location"@, c.location) + opt_text_field("encounter_id"@, c.encounter_id)
            + opt_text_field("episode_id"@, c.episode_id),
    )
}

/// The mapping of the links.
pub open spec fn links_tree(l: LinksView) -> YamlTree {
    YamlTree::Record(
        text_list_field("related_imaging"@, l.related_imaging) + text_list_field(
            "related_files"@,
            l.related_files,
        ),
    )
}

/// The mapping of the codes.
pub open spec fn codes_tree(c: CodesView) -> YamlTree {
    YamlTree::Record(
        code_list_field("diagnoses"@, c.diagnoses) + code_list_field("procedures"@, c.procedures),
    )
}

/// A field that holds a tree, left out where there is none.
pub open spec fn opt_field(name: Seq<char>, value: Option<YamlTree>) -> Fields {
    match value {
        Some(v) => field(name, v),
        None => Seq::empty(),
    }
}

/// The mapping of a context, where there is one.
pub open spec fn opt_context_tree(c: Option<ContextView>) -> Option<YamlTree> {
    match c {
        Some(c) => Some(context_tree(c)),
        None => None,
    }
}

/// The mapping of the links, where there are any.
pub open spec fn opt_links_tree(l: Option<LinksView>) -> Option<YamlTree> {
    match l {
        Some(l) => Some(links_tree(l)),
        None => None,
    }
}

/// The mapping of the codes, where there are any.
pub open spec fn opt_codes_tree(c: Option<CodesView>) -> Option<YamlTree> {
    match c {
        Some(c) => Some(codes_tree(c)),
        None => None,
    }
}

/// The fields of a header, in the order in which they are written. Optional
/// fields that are unset, and empty lists, are left out.
pub open spec fn header_fields(h: HeaderView) -> Fields {
    text_field("gitehr_event_id"@, h.event_id) + text_field("gitehr_patient_id"@, h.patient_id)
        + text_field("recorded_at"@, h.recorded_at.header_stamp()) + field(
        "author"@,
        author_tree(h.author),
    ) + opt_field("context"@, opt_context_tree(h.context)) + opt_field(
        "links"@,
        opt_links_tree(h.links),
    ) + opt_field("codes"@, opt_codes_tree(h.codes)) + opt_text_field(
        "correction_of"@,
        h.correction_of,
    ) + opt_text_field("parent_hash"@, h.parent_hash) + opt_text_field(
        "parent_entry"@,
        h.parent_entry,
    )
}

/// The YAML document of a header.
pub open spec fn header_tree(h: HeaderView) -> YamlTree {
    YamlTree::Record(header_fields(h))
}

/// Appends the field `name: value`.
fn push_field(pairs: &mut Vec<(YamlNode, YamlNode)>, name: &str, value: YamlNode)
    ensures
        pairs_view(*final(pairs)) == pairs_view(*old(pairs)) + field(name@, value@),
{
    let ghost before = *pairs;
    pairs.push((YamlNode::Text(name.to_owned()), value));
    proof {
        assert(pairs@.drop_last() =~= before@);
    }
}

/// Appends the field `name: value` for a string.
fn push_text(pairs: &mut Vec<(YamlNode, YamlNode)>, name: &str, value: &str)
    ensures
        pairs_view(*final(pairs)) == pairs_view(*old(pairs)) + text_field(name@, value@),
{
    push_field(pairs, name, YamlNode::Text(value.to_owned()));
}

/// Appends the field `name: value` where there is a value.
fn push_opt_text(pairs: &mut Vec<(YamlNode, YamlNode)>, name: &str, value: &Option<String>)
    ensures
        pairs_view(*final(pairs)) == pairs_view(*old(pairs)) + opt_text_field(
            name@,
            opt_text(*value),
        ),
{
    match value {
        Some(v) => {
            push_text(pairs, name, v.as_str());
        },
        None => {},
    }
}

/// Appends the field `name: value` where there is a value.
fn push_opt_field(pairs: &mut Vec<(YamlNode, YamlNode)>, name: &str, value: Option<YamlNode>)
    ensures
        pairs_view(*final(pairs)) == pairs_view(*old(pairs)) + opt_field(
            name@,
            match value {
                Some(v) => Some(v@),
                None => None,
            },
        ),
{
    match value {
        Some(v) => {
            push_field(pairs, name, v);
        },
        None => {},
    }
}

/// The sequence node of some strings.
fn text_list_node(items: &Vec<String>) -> (r: YamlNode)
    ensures
        r@ == text_list(texts(*items)),
{
    let mut nodes: Vec<YamlNode> = Vec::new();
    let mut i: usize = 0;
    while i < items.len()
        invariant
            i <= items.len(),
            nodes.len() == i,
            forall|k: int| 0 <= k < i ==> nodes[k]@ == YamlTree::Text(items[k]@),
        decreases items.len() - i,
    {
        nodes.push(YamlNode::Text(items[i].clone()));
        i += 1;
    }
    assert(nodes_view(nodes) =~= Seq::new(
        texts(*items).len(),
        |i: int| YamlTree::Text(texts(*items)[i]),
    ));
    YamlNode::List(nodes)
}

/// The mapping node of one code.
fn code_node(c: &CodeItem) -> (r: YamlNode)
    ensures
        r@ == code_tree(c@),
{
    let mut pairs: Vec<(YamlNode, YamlNode)> = Vec::new();
    push_text(&mut pairs, "system", c.system.as_str());
    push_text(&mut pairs, "code", c.code.as_str());
    push_text(&mut pairs, "display", c.display.as_str());
    YamlNode::Record(pairs)
}

/// The sequence node of some codes.
fn code_list_node(items: &Vec<CodeItem>) -> (r: YamlNode)
    ensures
        r@ == code_list(code_views(*items)),
{
    let mut nodes: Vec<YamlNode> = Vec::new();
    let mut i: usize = 0;
    while i < items.len()
        invariant
            i <= items.len(),
            nodes.len() == i,
            forall|k: int| 0 <= k < i ==> nodes[k]@ == code_tree(items[k]@),
        decreases items.len() - i,
    {
        nodes.push(code_node(&items[i]));
        i += 1;
    }
    assert(nodes_view(nodes) =~= Seq::new(
        code_views(*items).len(),
        |i: int| code_tree(code_views(*items)[i]),
    ));
    YamlNode::List(nodes)
}

/// Appends the field `name: items` unless `items` is empty.
fn push_text_list(pairs: &mut Vec<(YamlNode, YamlNode)>, name: &str, items: &Vec<String>)
    ensures
        pairs_view(*final(pairs)) == pairs_view(*old(pairs)) + text_list_field(
            name@,
            texts(*items),
        ),
{
    if items.len() > 0 {
        push_field(pairs, name, text_list_node(items));
    }
}

/// Appends the field `name: items` unless `items` is empty.
fn push_code_list(pairs: &mut Vec<(YamlNode, YamlNode)>, name: &str, items: &Vec<CodeItem>)
    ensures
        pairs_view(*final(pairs)) == pairs_view(*old(pairs)) + code_list_field(
            name@,
            code_views(*items),
        ),
{
    if items.len() > 0 {
        push_field(pairs, name, code_list_node(items));
    }
}

fn author_node(a: &AuthorInfo) -> (r: YamlNode)
    ensures
        r@ == author_tree(a@),
{
    let mut pairs: Vec<(YamlNode, YamlNode)> = Vec::new();
    push_text(&mut pairs, "id", a.id.as_str());
    push_text(&mut pairs, "name", a.name.as_str());
    push_opt_text(&mut pairs, "role", &a.role);
    YamlNode::Record(pairs)
}

fn context_node(c: &ContextInfo) -> (r: YamlNode)
    ensures
        r@ == context_tree(c@),
{
    let mut pairs: Vec<(YamlNode, YamlNode)> = Vec::new();
    push_opt_text(&mut pairs, "location", &c.location);
    push_opt_text(&mut pairs, "encounter_id", &c.encounter_id);
    push_opt_text(&mut pairs, "episode_id", &c.episode_id);
    YamlNode::Record(pairs)
}

fn links_node(l: &JournalLinks) -> (r: YamlNode)
    ensures
        r@ == links_tree(l@),
{
    let mut pairs: Vec<(YamlNode, YamlNode)> = Vec::new();
    push_text_list(&mut pairs, "related_imaging", &l.related_imaging);
    push_text_list(&mut pairs, "related_files", &l.related_files);
    YamlNode::Record(pairs)
}

fn codes_node(c: &JournalCodes) -> (r: YamlNode)
    ensures
        r@ == codes_tree(c@),
{
    let mut pairs: Vec<(YamlNode, YamlNode)> = Vec::new();
    push_code_list(&mut pairs, "diagnoses", &c.diagnoses);
    push_code_list(&mut pairs, "procedures", &c.procedures);
    YamlNode::Record(pairs)
}

/// The YAML document of a header.
pub fn header_node(h: &JournalEntryHeader) -> (r: YamlNode)
    ensures
        r@ == header_tree(h@),
{
    let mut pairs: Vec<(YamlNode, YamlNode)> = Vec::new();
    push_text(&mut pairs, "gitehr_event_id", h.gitehr_event_id.as_str());
    push_text(&mut pairs, "gitehr_patient_id", h.gitehr_patient_id.as_str());
    let stamp = h.recorded_at.header_stamp();
    push_text(&mut pairs, "recorded_at", stamp.as_str());
    push_field(&mut pairs, "author", author_node(&h.author));
    let context = match &h.context {
        Some(c) => Some(context_node(c)),
        None => None,
    };
    push_opt_field(&mut pairs, "context", context);
    let links = match &h.links {
        Some(l) => Some(links_node(l)),
        None => None,
    };
    push_opt_field(&mut pairs, "links", links);
    let codes = match &h.codes {
        Some(c) => Some(codes_node(c)),
        None => None,
    };
    push_opt_field(&mut pairs, "codes", codes);
    push_opt_text(&mut pairs, "correction_of", &h.correction_of);
    push_opt_text(&mut pairs, "parent_hash", &h.parent_hash);
    push_opt_text(&mut pairs, "parent_entry", &h.parent_entry);
    YamlNode::Record(pairs)
}

/// Why a stored entry cannot be read.
#[derive(Debug, Clone)]
pub enum Malformed {
    /// The text holds no `---` delimiter.
    NoFrontMatter,
    /// The header is no YAML; the parser's message.
    InvalidYaml(String),
    /// A required field is missing; its name.
    MissingField(String),
    /// A field holds a value of the wrong kind; its name.
    WrongType(String),
    /// The timestamp cannot be read; its text.
    BadTimestamp(String),
}

/// The mathematical value of a [`Malformed`].
pub enum MalformedView {
    NoFrontMatter,
    InvalidYaml(Seq<char>),
    MissingField(Seq<char>),
    WrongType(Seq<char>),
    BadTimestamp(Seq<char>),
}

impl View for Malformed {
    type V = MalformedView;

    open spec fn view(&self) -> MalformedView {
        match self {
            Malformed::NoFrontMatter => MalformedView::NoFrontMatter,
            Malformed::InvalidYaml(m) => MalformedView::InvalidYaml(m@),
            Malformed::MissingField(n) => MalformedView::MissingField(n@),
            Malformed::WrongType(n) => MalformedView::WrongType(n@),
            Malformed::BadTimestamp(t) => MalformedView::BadTimestamp(t@),
        }
    }
}

impl MalformedView {
    /// The reason in words.
    pub open spec fn message(self) -> Seq<char> {
        match self {
            MalformedView::NoFrontMatter => "Missing YAML front matter"@,
            MalformedView::InvalidYaml(m) => "Invalid YAML: "@ + m,
            MalformedView::MissingField(n) => "Invalid YAML: missing field "@ + n,
            MalformedView::WrongType(n) => "Invalid YAML: invalid type for field "@ + n,
            MalformedView::BadTimestamp(t) => "Invalid YAML: invalid timestamp "@ + t,
        }
    }
}

impl Malformed {
    /// The reason in words.
    pub fn message(&self) -> (r: String)
        ensures
            r@ == self@.message(),
    {
        match self {
            Malformed::NoFrontMatter => "Missing YAML front matter".to_owned(),
            Malformed::InvalidYaml(m) => joined("Invalid YAML: ", m.as_str()),
            Malformed::MissingField(n) => joined("Invalid YAML: missing field ", n.as_str()),
            Malformed::WrongType(n) => joined(
                "Invalid YAML: invalid type for field ",
                n.as_str(),
            ),
            Malformed::BadTimestamp(t) => joined("Invalid YAML: invalid timestamp ", t.as_str()),
        }
    }
}

/// The value of the first field from index `from` on whose key is the string `key`.
pub open spec fn lookup_from(fields: Fields, key: Seq<char>, from: int) -> Option<YamlTree>
    decreases fields.len() - from,
{
    if from < 0 || from >= fields.len() {
        None
    } else if fields[from].0 == YamlTree::Text(key) {
        Some(fields[from].1)
    } else {
        lookup_from(fields, key, from + 1)
    }
}

/// The value of the first field whose key is the string `key`.
pub open spec fn lookup(fields: Fields, key: Seq<char>) -> Option<YamlTree> {
    lookup_from(fields, key, 0)
}

/// A string that must be there.
pub open spec fn required_text(fields: Fields, key: Seq<char>, name: Seq<char>) -> Result<
    Seq<char>,
    MalformedView,
> {
    match lookup(fields, key) {
        None => Err(MalformedView::MissingField(name)),
        Some(YamlTree::Text(s)) => Ok(s),
        Some(_) => Err(MalformedView::WrongType(name)),
    }
}

/// A string that may be missing or null.
pub open spec fn optional_text(fields: Fields, key: Seq<char>, name: Seq<char>) -> Result<
    Option<Seq<char>>,
    MalformedView,
> {
    match lookup(fields, key) {
        None => Ok(None),
        Some(YamlTree::Null) => Ok(None),
        Some(YamlTree::Text(s)) => Ok(Some(s)),
        Some(_) => Err(MalformedView::WrongType(name)),
    }
}

/// The first `n` items as strings; an item that is no string is an error.
pub open spec fn text_items(items: Seq<YamlTree>, name: Seq<char>, n: int) -> Result<
    Seq<Seq<char>>,
    MalformedView,
>
    decreases n,
{
    if n <= 0 {
        Ok(Seq::empty())
    } else {
        match text_items(items, name, n - 1) {
            Err(e) => Err(e),
            Ok(before) => match items[n - 1] {
                YamlTree::Text(s) => Ok(before.push(s)),
                _ => Err(MalformedView::WrongType(name)),
            },
        }
    }
}

/// A list of strings; a missing field is the empty list.
pub open spec fn text_list_of(fields: Fields, key: Seq<char>, name: Seq<char>) -> Result<
    Seq<Seq<char>>,
    MalformedView,
> {
    match lookup(fields, key) {
        None => Ok(Seq::empty()),
        Some(YamlTree::List(items)) => text_items(items, name, items.len() as int),
        Some(_) => Err(MalformedView::WrongType(name)),
    }
}

/// One code: a mapping with the strings `system`, `code` and `display`.
pub open spec fn code_of(tree: YamlTree, name: Seq<char>) -> Result<CodeView, MalformedView> {
    match tree {
        YamlTree::Record(f) => {
            let system = required_text(f, "system"@, name);
            let code = required_text(f, "code"@, name);
            let display = required_text(f, "display"@, name);
            if system is Err {
                Err(system->Err_0)
            } else if code is Err {
                Err(code->Err_0)
            } else if display is Err {
                Err(display->Err_0)
            } else {
                Ok(CodeView { system: system->Ok_0, code: code->Ok_0, display: display->Ok_0 })
            }
        },
        _ => Err(MalformedView::WrongType(name)),
    }
}

/// The first `n` items as codes; the first item that is no code is the error.
pub open spec fn code_items(items: Seq<YamlTree>, name: Seq<char>, n: int) -> Result<
    Seq<CodeView>,
    MalformedView,
>
    decreases n,
{
    if n <= 0 {
        Ok(Seq::empty())
    } else {
        match code_items(items, name, n - 1) {
            Err(e) => Err(e),
            Ok(before) => match code_of(items[n - 1], name) {
                Ok(c) => Ok(before.push(c)),
                Err(e) => Err(e),
            },
        }
    }
}

/// A list of codes; a missing field is the empty list.
pub open spec fn code_list_of(fields: Fields, key: Seq<char>, name: Seq<char>) -> Result<
    Seq<CodeView>,
    MalformedView,
> {
    match lookup(fields, key) {
        None => Ok(Seq::empty()),
        Some(YamlTree::List(items)) => code_items(items, name, items.len() as int),
        Some(_) => Err(MalformedView::WrongType(name)),
    }
}

/// The author that a tree stands for: a mapping with the strings `id` and
/// `name`, and maybe `role`.
pub open spec fn author_of(tree: YamlTree) -> Result<AuthorView, MalformedView> {
    match tree {
        YamlTree::Record(f) => {
            let id = required_text(f, "id"@, "author.id"@);
            let name = required_text(f, "name"@, "author.name"@);
            let role = optional_text(f, "role"@, "author.role"@);
            if id is Err {
                Err(id->Err_0)
            } else if name is Err {
                Err(name->Err_0)
            } else if role is Err {
                Err(role->Err_0)
            } else {
                Ok(AuthorView { id: id->Ok_0, name: name->Ok_0, role: role->Ok_0 })
            }
        },
        _ => Err(MalformedView::WrongType("author"@)),
    }
}

/// The context that a tree stands for: a mapping with what strings it has
/// of `location`, `encounter_id` and `episode_id`.
pub open spec fn context_of(tree: YamlTree) -> Result<ContextView, MalformedView> {
    match tree {
        YamlTree::Record(f) => {
            let location = optional_text(f, "location"@, "context.location"@);
            let encounter = optional_text(f, "encounter_id"@, "context.encounter_id"@);
            let episode = optional_text(f, "episode_id"@, "context.episode_id"@);
            if location is Err {
                Err(location->Err_0)
            } else if encounter is Err {
                Err(encounter->Err_0)
            } else if episode is Err {
                Err(episode->Err_0)
            } else {
                Ok(
                    ContextView {
                        location: location->Ok_0,
                        encounter_id: encounter->Ok_0,
                        episode_id: episode->Ok_0,
                    },
                )
            }
        },
        _ => Err(MalformedView::WrongType("context"@)),
    }
}

/// The links that a tree stands for: a mapping with what lists it has of
/// `related_imaging` and `related_files`.
pub open spec fn links_of(tree: YamlTree) -> Result<LinksView, MalformedView> {
    match tree {
        YamlTree::Record(f) => {
            let imaging = text_list_of(f, "related_imaging"@, "links.related_imaging"@);
            let files = text_list_of(f, "related_files"@, "links.related_files"@);
            if imaging is Err {
                Err(imaging->Err_0)
            } else if files is Err {
                Err(files->Err_0)
            } else {
                Ok(LinksView { related_imaging: imaging->Ok_0, related_files: files->Ok_0 })
            }
        },
        _ => Err(MalformedView::WrongType("links"@)),
    }
}

/// The codes that a tree stands for: a mapping with what lists it has of
/// `diagnoses` and `procedures`.
pub open spec fn codes_of(tree: YamlTree) -> Result<CodesView, MalformedView> {
    match tree {
        YamlTree::Record(f) => {
            let diagnoses = code_list_of(f, "diagnoses"@, "codes.diagnoses"@);
            let procedures = code_list_of(f, "procedures"@, "codes.procedures"@);
            if diagnoses is Err {
                Err(diagnoses->Err_0)
            } else if procedures is Err {
                Err(procedures->Err_0)
            } else {
                Ok(CodesView { diagnoses: diagnoses->Ok_0, procedures: procedures->Ok_0 })
            }
        },
        _ => Err(MalformedView::WrongType("codes"@)),
    }
}

/// The author, who must be there.
pub open spec fn author_field(fields: Fields) -> Result<AuthorView, MalformedView> {
    match lookup(fields, "author"@) {
        None => Err(MalformedView::MissingField("author"@)),
        Some(t) => author_of(t),
    }
}

/// The context, unset where the field is missing or null.
pub open spec fn context_field(fields: Fields) -> Result<Option<ContextView>, MalformedView> {
    match lookup(fields, "context"@) {
        None => Ok(None),
        Some(YamlTree::Null) => Ok(None),
        Some(t) => match context_of(t) {
            Ok(c) => Ok(Some(c)),
            Err(e) => Err(e),
        },
    }
}

/// The links, unset where the field is missing or null.
pub open spec fn links_field(fields: Fields) -> Result<Option<LinksView>, MalformedView> {
    match lookup(fields, "links"@) {
        None => Ok(None),
        Some(YamlTree::Null) => Ok(None),
        Some(t) => match links_of(t) {
            Ok(l) => Ok(Some(l)),
            Err(e) => Err(e),
        },
    }
}

/// The codes, unset where the field is missing or null.
pub open spec fn codes_field(fields: Fields) -> Result<Option<CodesView>, MalformedView> {
    match lookup(fields, "codes"@) {
        None => Ok(None),
        Some(YamlTree::Null) => Ok(None),
        Some(t) => match codes_of(t) {
            Ok(c) => Ok(Some(c)),
            Err(e) => Err(e),
        },
    }
}

/// The time of recording: a string that reads as a valid moment.
pub open spec fn moment_field(fields: Fields) -> Result<Moment, MalformedView> {
    match required_text(fields, "recorded_at"@, "recorded_at"@) {
        Err(e) => Err(e),
        Ok(text) => match parsed_moment(text) {
            Some(m) => Ok(m),
            None => Err(MalformedView::BadTimestamp(text)),
        },
    }
}

/// The header that a YAML document stands for. The document must be a mapping
/// with the required fields; fields that it does not know are passed over; of
/// several errors the one of the earliest field is reported.
pub open spec fn header_of_tree(tree: YamlTree) -> Result<HeaderView, MalformedView> {
    match tree {
        YamlTree::Record(f) => {
            let event_id = required_text(f, "gitehr_event_id"@, "gitehr_event_id"@);
            let patient_id = required_text(f, "gitehr_patient_id"@, "gitehr_patient_id"@);
            let recorded_at = moment_field(f);
            let author = author_field(f);
            let context = context_field(f);
            let links = links_field(f);
            let codes = codes_field(f);
            let correction_of = optional_text(f, "correction_of"@, "correction_of"@);
            let parent_hash = optional_text(f, "parent_hash"@, "parent_hash"@);
            let parent_entry = optional_text(f, "parent_entry"@, "parent_entry"@);
            if event_id is Err {
                Err(event_id->Err_0)
            } else if patient_id is Err {
                Err(patient_id->Err_0)
            } else if recorded_at is Err {
                Err(recorded_at->Err_0)
            } else if author is Err {
                Err(author->Err_0)
            } else if context is Err {
                Err(context->Err_0)
            } else if links is Err {
                Err(links->Err_0)
            } else if codes is Err {
                Err(codes->Err_0)
            } else if correction_of is Err {
                Err(correction_of->Err_0)
            } else if parent_hash is Err {
                Err(parent_hash->Err_0)
            } else if parent_entry is Err {
                Err(parent_entry->Err_0)
            } else {
                Ok(
                    HeaderView {
                        event_id: event_id->Ok_0,
                        patient_id: patient_id->Ok_0,
                        recorded_at: recorded_at->Ok_0,
                        author: author->Ok_0,
                        context: context->Ok_0,
                        links: links->Ok_0,
                        codes: codes->Ok_0,
                        correction_of: correction_of->Ok_0,
                        parent_hash: parent_hash->Ok_0,
                        parent_entry: parent_entry->Ok_0,
                    },
                )
            }
        },
        _ => Err(MalformedView::WrongType("header"@)),
    }
}

/// An error among the first `k` items is the error of every longer prefix.
proof fn lemma_text_items_error(items: Seq<YamlTree>, name: Seq<char>, k: int, n: int)
    requires
        k <= n,
        text_items(items, name, k) is Err,
    ensures
        text_items(items, name, n) == text_items(items, name, k),
    decreases n - k,
{
    if k < n {
        lemma_text_items_error(items, name, k, n - 1);
    }
}

/// An error among the first `k` items is the error of every longer prefix.
proof fn lemma_code_items_error(items: Seq<YamlTree>, name: Seq<char>, k: int, n: int)
    requires
        k <= n,
        code_items(items, name, k) is Err,
    ensures
        code_items(items, name, n) == code_items(items, name, k),
    decreases n - k,
{
    if k < n {
        lemma_code_items_error(items, name, k, n - 1);
    }
}

/// The value of the first field whose key is the string `key`.
fn find_field<'a>(pairs: &'a Vec<(YamlNode, YamlNode)>, key: &str) -> (r: Option<&'a YamlNode>)
    ensures
        match r {
            Some(n) => lookup(pairs_view(*pairs), key@) == Some(n@),
            None => lookup(pairs_view(*pairs), key@) is None,
        },
{
    let mut i: usize = 0;
    while i < pairs.len()
        invariant
            i <= pairs.len(),
            lookup(pairs_view(*pairs), key@) == lookup_from(pairs_view(*pairs), key@, i as int),
        decreases pairs.len() - i,
    {
        let hit = match &pairs[i].0 {
            YamlNode::Text(k) => same_text(k.as_str(), key),
            _ => false,
        };
        if hit {
            return Some(&pairs[i].1);
        }
        i += 1;
    }
    None
}

fn get_required_text(pairs: &Vec<(YamlNode, YamlNode)>, key: &str, name: &str) -> (r: Result<
    String,
    Malformed,
>)
    ensures
        match r {
            Ok(s) => required_text(pairs_view(*pairs), key@, name@) == Ok::<
                Seq<char>,
                MalformedView,
            >(s@),
            Err(e) => required_text(pairs_view(*pairs), key@, name@) == Err::<
                Seq<char>,
                MalformedView,
            >(e@),
        },
{
    match find_field(pairs, key) {
        None => Err(Malformed::MissingField(name.to_owned())),
        Some(YamlNode::Text(s)) => Ok(s.clone()),
        Some(_) => Err(Malformed::WrongType(name.to_owned())),
    }
}

fn get_optional_text(pairs: &Vec<(YamlNode, YamlNode)>, key: &str, name: &str) -> (r: Result<
    Option<String>,
    Malformed,
>)
    ensures
        match r {
            Ok(s) => optional_text(pairs_view(*pairs), key@, name@) == Ok::<
                Option<Seq<char>>,
                MalformedView,
            >(opt_text(s)),
            Err(e) => optional_text(pairs_view(*pairs), key@, name@) == Err::<
                Option<Seq<char>>,
                MalformedView,
            >(e@),
        },
{
    match find_field(pairs, key) {
        None => Ok(None),
        Some(YamlNode::Null) => Ok(None),
        Some(YamlNode::Text(s)) => Ok(Some(s.clone())),
        Some(_) => Err(Malformed::WrongType(name.to_owned())),
    }
}

fn get_text_list(pairs: &Vec<(YamlNode, YamlNode)>, key: &str, name: &str) -> (r: Result<
    Vec<String>,
    Malformed,
>)
    ensures
        match r {
            Ok(v) => text_list_of(pairs_view(*pairs), key@, name@) == Ok::<
                Seq<Seq<char>>,
                MalformedView,
            >(texts(v)),
            Err(e) => text_list_of(pairs_view(*pairs), key@, name@) == Err::<
                Seq<Seq<char>>,
                MalformedView,
            >(e@),
        },
{
    match find_field(pairs, key) {
        None => {
            let out: Vec<String> = Vec::new();
            assert(texts(out) =~= Seq::empty());
            Ok(out)
        },
        Some(YamlNode::List(items)) => {
            let mut out: Vec<String> = Vec::new();
            let mut i: usize = 0;
            assert(texts(out) =~= Seq::empty());
            while i < items.len()
                invariant
                    i <= items.len(),
                    lookup(pairs_view(*pairs), key@) == Some(YamlTree::List(nodes_view(*items))),
                    text_items(nodes_view(*items), name@, i as int) == Ok::<
                        Seq<Seq<char>>,
                        MalformedView,
                    >(texts(out)),
                decreases items.len() - i,
            {
                let ghost before = out;
                match &items[i] {
                    YamlNode::Text(s) => {
                        out.push(s.clone());
                        assert(texts(out) =~= texts(before).push(s@));
                    },
                    _ => {
                        proof {
                            lemma_text_items_error(
                                nodes_view(*items),
                                name@,
                                i + 1,
                                items.len() as int,
                            );
                        }
                        return Err(Malformed::WrongType(name.to_owned()));
                    },
                }
                i += 1;
            }
            Ok(out)
        },
        Some(_) => Err(Malformed::WrongType(name.to_owned())),
    }
}

fn get_code(node: &YamlNode, name: &str) -> (r: Result<CodeItem, Malformed>)
    ensures
        match r {
            Ok(c) => code_of(node@, name@) == Ok::<CodeView, MalformedView>(c@),
            Err(e) => code_of(node@, name@) == Err::<CodeView, MalformedView>(e@),
        },
{
    match node {
        YamlNode::Record(f) => {
            let system = get_required_text(f, "system", name)?;
            let code = get_required_text(f, "code", name)?;
            let display = get_required_text(f, "display", name)?;
            Ok(CodeItem { system, code, display })
        },
        _ => Err(Malformed::WrongType(name.to_owned())),
    }
}

fn get_code_list(pairs: &Vec<(YamlNode, YamlNode)>, key: &str, name: &str) -> (r: Result<
    Vec<CodeItem>,
    Malformed,
>)
    ensures
        match r {
            Ok(v) => code_list_of(pairs_view(*pairs), key@, name@) == Ok::<
                Seq<CodeView>,
                MalformedView,
            >(code_views(v)),
            Err(e) => code_list_of(pairs_view(*pairs), key@, name@) == Err::<
                Seq<CodeView>,
                MalformedView,
            >(e@),
        },
{
    match find_field(pairs, key) {
        None => {
            let out: Vec<CodeItem> = Vec::new();
            assert(code_views(out) =~= Seq::empty());
            Ok(out)
        },
        Some(YamlNode::List(items)) => {
            let mut out: Vec<CodeItem> = Vec::new();
            let mut i: usize = 0;
            assert(code_views(out) =~= Seq::empty());
            while i < items.len()
                invariant
                    i <= items.len(),
                    lookup(pairs_view(*pairs), key@) == Some(YamlTree::List(nodes_view(*items))),
                    code_items(nodes_view(*items), name@, i as int) == Ok::<
                        Seq<CodeView>,
                        MalformedView,
                    >(code_views(out)),
                decreases items.len() - i,
            {
                let ghost before = out;
                match get_code(&items[i], name) {
                    Ok(c) => {
                        out.push(c);
                        assert(code_views(out) =~= code_views(before).push(c@));
                    },
                    Err(e) => {
                        proof {
                            lemma_code_items_error(
                                nodes_view(*items),
                                name@,
                                i + 1,
                                items.len() as int,
                            );
                        }
                        return Err(e);
                    },
                }
                i += 1;
            }
            Ok(out)
        },
        Some(_) => Err(Malformed::WrongType(name.to_owned())),
    }
}

fn get_author(node: &YamlNode) -> (r: Result<AuthorInfo, Malformed>)
    ensures
        match r {
            Ok(a) => author_of(node@) == Ok::<AuthorView, MalformedView>(a@),
            Err(e) => author_of(node@) == Err::<AuthorView, MalformedView>(e@),
        },
{
    match node {
        YamlNode::Record(f) => {
            let id = get_required_text(f, "id", "author.id")?;
            let name = get_required_text(f, "name", "author.name")?;
            let role = get_optional_text(f, "role", "author.role")?;
            Ok(AuthorInfo { id, name, role })
        },
        _ => Err(Malformed::WrongType("author".to_owned())),
    }
}

fn get_context(node: &YamlNode) -> (r: Result<ContextInfo, Malformed>)
    ensures
        match r {
            Ok(c) => context_of(node@) == Ok::<ContextView, MalformedView>(c@),
            Err(e) => context_of(node@) == Err::<ContextView, MalformedView>(e@),
        },
{
    match node {
        YamlNode::Record(f) => {
            let location = get_optional_text(f, "location", "context.location")?;
            let encounter_id = get_optional_text(f, "encounter_id", "context.encounter_id")?;
            let episode_id = get_optional_text(f, "episode_id", "context.episode_id")?;
            Ok(ContextInfo { location, encounter_id, episode_id })
        },
        _ => Err(Malformed::WrongType("context".to_owned())),
    }
}

fn get_links(node: &YamlNode) -> (r: Result<JournalLinks, Malformed>)
    ensures
        match r {
            Ok(l) => links_of(node@) == Ok::<LinksView, MalformedView>(l@),
            Err(e) => links_of(node@) == Err::<LinksView, MalformedView>(e@),
        },
{
    match node {
        YamlNode::Record(f) => {
            let related_imaging = get_text_list(f, "related_imaging", "links.related_imaging")?;
            let related_files = get_text_list(f, "related_files", "links.related_files")?;
            Ok(JournalLinks { related_imaging, related_files })
        },
        _ => Err(Malformed::WrongType("links".to_owned())),
    }
}

fn get_codes(node: &YamlNode) -> (r: Result<JournalCodes, Malformed>)
    ensures
        match r {
            Ok(c) => codes_of(node@) == Ok::<CodesView, MalformedView>(c@),
            Err(e) => codes_of(node@) == Err::<CodesView, MalformedView>(e@),
        },
{
    match node {
        YamlNode::Record(f) => {
            let diagnoses = get_code_list(f, "diagnoses", "codes.diagnoses")?;
            let procedures = get_code_list(f, "procedures", "codes.procedures")?;
            Ok(JournalCodes { diagnoses, procedures })
        },
        _ => Err(Malformed::WrongType("codes".to_owned())),
    }
}

fn get_moment(pairs: &Vec<(YamlNode, YamlNode)>) -> (r: Result<Timestamp, Malformed>)
    ensures
        match r {
            Ok(t) => moment_field(pairs_view(*pairs)) == Ok::<Moment, MalformedView>(t@),
            Err(e) => moment_field(pairs_view(*pairs)) == Err::<Moment, MalformedView>(e@),
        },
{
    let text = get_required_text(pairs, "recorded_at", "recorded_at")?;
    match Timestamp::parse(text.as_str()) {
        Some(t) => Ok(t),
        None => Err(Malformed::BadTimestamp(text)),
    }
}

/// Whether what was read is the header, or the reason, that the document
/// stands for.
pub open spec fn reads_as(
    r: Result<JournalEntryHeader, Malformed>,
    expected: Result<HeaderView, MalformedView>,
) -> bool {
    match r {
        Ok(h) => expected == Ok::<HeaderView, MalformedView>(h@),
        Err(e) => expected == Err::<HeaderView, MalformedView>(e@),
    }
}

/// Reads a header from its YAML document, checking it against the schema.
pub fn header_from_node(node: &YamlNode) -> (r: Result<JournalEntryHeader, Malformed>)
    ensures
        reads_as(r, header_of_tree(node@)),
{
    match node {
        YamlNode::Record(f) => {
            let gitehr_event_id = get_required_text(f, "gitehr_event_id", "gitehr_event_id")?;
            let gitehr_patient_id = get_required_text(
                f,
                "gitehr_patient_id",
                "gitehr_patient_id",
            )?;
            let recorded_at = get_moment(f)?;
            let author = match find_field(f, "author") {
                None => {
                    return Err(Malformed::MissingField("author".to_owned()));
                },
                Some(n) => get_author(n)?,
            };
            let context = match find_field(f, "context") {
                None => None,
                Some(YamlNode::Null) => None,
                Some(n) => Some(get_context(n)?),
            };
            let links = match find_field(f, "links") {
                None => None,
                Some(YamlNode::Null) => None,
                Some(n) => Some(get_links(n)?),
            };
            let codes = match find_field(f, "codes") {
                None => None,
                Some(YamlNode::Null) => None,
                Some(n) => Some(get_codes(n)?),
            };
            let correction_of = get_optional_text(f, "correction_of", "correction_of")?;
            let parent_hash = get_optional_text(f, "parent_hash", "parent_hash")?;
            let parent_entry = get_optional_text(f, "parent_entry", "parent_entry")?;
            Ok(
                JournalEntryHeader {
                    gitehr_event_id,
                    gitehr_patient_id,
                    recorded_at,
                    author,
                    context,
                    links,
                    codes,
                    correction_of,
                    parent_hash,
                    parent_entry,
                },
            )
        },
        _ => Err(Malformed::WrongType("header".to_owned())),
    }
}

/// Whether the delimiter `---` stands at index `k`.
pub open spec fn delim_at(s: Seq<char>, k: int) -> bool {
    0 <= k && k + 3 <= s.len() && s[k] == '-' && s[k + 1] == '-' && s[k + 2] == '-'
}

/// The index of the first delimiter that starts at `from` or later.
pub open spec fn find_delim(s: Seq<char>, from: int) -> Option<int>
    decreases s.len() - from,
{
    if from < 0 || from + 3 > s.len() {
        None
    } else if delim_at(s, from) {
        Some(from)
    } else {
        find_delim(s, from + 1)
    }
}

/// What follows the closing delimiter, without the blank line that the
/// writer puts there.
pub open spec fn strip_blank(rest: Seq<char>) -> Seq<char> {
    if rest.len() >= 2 && rest[0] == '\n' && rest[1] == '\n' {
        rest.skip(2)
    } else {
        rest
    }
}

/// The header text and the body of a stored entry: the header text lies
/// between the first delimiter and the next one, or runs to the end where
/// there is no second one; `None` where there is no delimiter at all.
pub open spec fn split_spec(content: Seq<char>) -> Option<(Seq<char>, Seq<char>)> {
    match find_delim(content, 0) {
        None => None,
        Some(a) => match find_delim(content, a + 3) {
            None => Some((content.subrange(a + 3, content.len() as int), Seq::empty())),
            Some(b) => Some(
                (
                    content.subrange(a + 3, b),
                    strip_blank(content.subrange(b + 3, content.len() as int)),
                ),
            ),
        },
    }
}

/// The stored form: delimiter, header text, delimiter, blank line, body.
pub open spec fn frame(yaml: Seq<char>, body: Seq<char>) -> Seq<char> {
    "---\n"@ + yaml + "---\n\n"@ + body
}

/// The stored form of a header text and a body.
pub fn frame_entry(yaml: &str, body: &str) -> (r: String)
    ensures
        r@ == frame(yaml@, body@),
{
    let a = joined("---\n", yaml);
    let b = joined(a.as_str(), "---\n\n");
    joined(b.as_str(), body)
}

/// The index of the first delimiter that starts at `from` or later.
fn find_delimiter(s: &Vec<char>, from: usize) -> (r: Option<usize>)
    ensures
        match r {
            Some(k) => find_delim(s@, from as int) == Some(k as int) && from <= k && k + 3
                <= s.len(),
            None => find_delim(s@, from as int) is None,
        },
{
    let n = s.len();
    let mut i: usize = from;
    while i < n && n - i >= 3
        invariant
            n == s.len(),
            from <= i,
            find_delim(s@, from as int) == find_delim(s@, i as int),
        decreases n - i,
    {
        if s[i] == '-' && s[i + 1] == '-' && s[i + 2] == '-' {
            return Some(i);
        }
        i += 1;
    }
    None
}

/// Whether a pair of strings is the pair of texts expected.
pub open spec fn is_split(r: Option<(String, String)>, expected: Option<(Seq<char>, Seq<char>)>) -> bool {
    match r {
        Some(p) => expected == Some((p.0@, p.1@)),
        None => expected is None,
    }
}

/// Splits a stored entry into its header text and its body.
pub fn split_entry(content: &str) -> (r: Option<(String, String)>)
    ensures
        is_split(r, split_spec(content@)),
{
    let chars = chars_of(content);
    let n = chars.len();
    match find_delimiter(&chars, 0) {
        None => None,
        Some(a) => match find_delimiter(&chars, a + 3) {
            None => Some((text_of_range(&chars, a + 3, n), String::new())),
            Some(b) => {
                let header = text_of_range(&chars, a + 3, b);
                let start = b + 3;
                if n - start >= 2 && chars[start] == '\n' && chars[start + 1] == '\n' {
                    let body = text_of_range(&chars, start + 2, n);
                    assert(chars@.subrange(start as int, n as int).skip(2) =~= chars@.subrange(
                        start + 2,
                        n as int,
                    ));
                    Some((header, body))
                } else {
                    Some((header, text_of_range(&chars, start, n)))
                }
            },
        },
    }
}

/// Where the body of a stored entry begins: after the second delimiter.
pub open spec fn body_start(content: Seq<char>) -> Option<int> {
    match find_delim(content, 0) {
        None => None,
        Some(a) => match find_delim(content, a + 3) {
            None => None,
            Some(b) => Some(b + 3),
        },
    }
}

/// Whether a stored entry has both delimiters, and so a body.
pub fn has_body(content: &str) -> (r: bool)
    ensures
        r == (body_start(content@) is Some),
{
    let chars = chars_of(content);
    match find_delimiter(&chars, 0) {
        None => false,
        Some(a) => find_delimiter(&chars, a + 3).is_some(),
    }
}

/// What a stored entry reads as: its header and its body, or why it cannot
/// be read.
pub open spec fn decode_spec(content: Seq<char>) -> Result<(HeaderView, Seq<char>), MalformedView> {
    match split_spec(content) {
        None => Err(MalformedView::NoFrontMatter),
        Some((yaml, body)) => match parsed_yaml(yaml) {
            Err(m) => Err(MalformedView::InvalidYaml(m)),
            Ok(tree) => match header_of_tree(tree) {
                Err(e) => Err(e),
                Ok(h) => Ok((h, body)),
            },
        },
    }
}

/// The header that a stored entry reads as.
pub open spec fn header_spec(content: Seq<char>) -> Result<HeaderView, MalformedView> {
    match decode_spec(content) {
        Ok(p) => Ok(p.0),
        Err(e) => Err(e),
    }
}

/// The stored form of an entry, or the YAML writer's message.
pub open spec fn encode_spec(h: HeaderView, body: Seq<char>) -> Result<Seq<char>, Seq<char>> {
    match emitted_yaml(header_tree(h)) {
        Ok(yaml) => Ok(frame(yaml, body)),
        Err(m) => Err(m),
    }
}

/// Whether a decoded entry, or a reason, is the one expected.
pub open spec fn decodes_as(
    r: Result<(JournalEntryHeader, String), Malformed>,
    expected: Result<(HeaderView, Seq<char>), MalformedView>,
) -> bool {
    match r {
        Ok(p) => expected == Ok::<(HeaderView, Seq<char>), MalformedView>((p.0@, p.1@)),
        Err(e) => expected == Err::<(HeaderView, Seq<char>), MalformedView>(e@),
    }
}

/// Writes an entry in its stored form.
pub fn encode_entry(header: &JournalEntryHeader, body: &str) -> (r: Result<String, String>)
    ensures
        crate::yaml::text_result(r) == encode_spec(header@, body@),
{
    let node = header_node(header);
    match crate::yaml::emit(&node) {
        Ok(yaml) => Ok(frame_entry(yaml.as_str(), body)),
        Err(m) => Err(m),
    }
}

/// Reads a stored entry.
pub fn decode_entry(content: &str) -> (r: Result<(JournalEntryHeader, String), Malformed>)
    ensures
        decodes_as(r, decode_spec(content@)),
{
    match split_entry(content) {
        None => Err(Malformed::NoFrontMatter),
        Some(parts) => {
            let (yaml, body) = parts;
            match crate::yaml::parse(yaml.as_str()) {
                Err(m) => Err(Malformed::InvalidYaml(m)),
                Ok(node) => match header_from_node(&node) {
                    Err(e) => Err(e),
                    Ok(h) => Ok((h, body)),
                },
            }
        },
    }
}

} // verus!
