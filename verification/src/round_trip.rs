//! What is written reads back: the header's YAML document stands for the
//! header, and the stored form splits into the header text and the body.

use vstd::prelude::*;
use crate::codec::Fields;
use crate::codec::MalformedView;
use crate::codec::author_of;
use crate::codec::author_tree;
use crate::codec::code_items;
use crate::codec::code_list;
use crate::codec::code_list_field;
use crate::codec::code_list_of;
use crate::codec::code_of;
use crate::codec::code_tree;
use crate::codec::codes_of;
use crate::codec::codes_tree;
use crate::codec::context_of;
use crate::codec::context_tree;
use crate::codec::decode_spec;
use crate::codec::delim_at;
use crate::codec::encode_spec;
use crate::codec::field;
use crate::codec::find_delim;
use crate::codec::frame;
use crate::codec::header_fields;
use crate::codec::header_of_tree;
use crate::codec::header_tree;
use crate::codec::links_of;
use crate::codec::links_tree;
use crate::codec::lookup;
use crate::codec::lookup_from;
use crate::codec::opt_codes_tree;
use crate::codec::opt_context_tree;
use crate::codec::opt_field;
use crate::codec::opt_links_tree;
use crate::codec::opt_text_field;
use crate::codec::split_spec;
use crate::codec::text_field;
use crate::codec::text_items;
use crate::codec::text_list;
use crate::codec::text_list_field;
use crate::codec::text_list_of;
use crate::entry::AuthorView;
use crate::entry::CodeView;
use crate::entry::CodesView;
use crate::entry::ContextView;
use crate::entry::HeaderView;
use crate::entry::LinksView;
use crate::timestamp::parsed_moment;
use crate::yaml::YamlTree;
use crate::yaml::emitted_yaml;
use crate::yaml::parsed_yaml;

verus! {

proof fn lemma_lookup_concat_from(a: Fields, b: Fields, key: Seq<char>, from: int)
    requires
        0 <= from <= a.len(),
    ensures
        lookup_from(a + b, key, from) == match lookup_from(a, key, from) {
            Some(v) => Some(v),
            None => lookup_from(b, key, 0),
        },
    decreases a.len() - from,
{
    if from < a.len() {
        if a[from].0 != YamlTree::Text(key) {
            lemma_lookup_concat_from(a, b, key, from + 1);
        }
    } else {
        lemma_lookup_shift(a, b, key, 0);
    }
}

proof fn lemma_lookup_shift(a: Fields, b: Fields, key: Seq<char>, i: int)
    requires
        0 <= i <= b.len(),
    ensures
        lookup_from(a + b, key, a.len() + i) == lookup_from(b, key, i),
    decreases b.len() - i,
{
    if i < b.len() {
        lemma_lookup_shift(a, b, key, i + 1);
    }
}

/// A field is looked up in the first of two runs of fields that has it.
pub proof fn lemma_lookup_concat(a: Fields, b: Fields, key: Seq<char>)
    ensures
        lookup(a + b, key) == match lookup(a, key) {
            Some(v) => Some(v),
            None => lookup(b, key),
        },
{
    lemma_lookup_concat_from(a, b, key, 0);
}

/// One field is found under its own name only.
pub proof fn lemma_lookup_field(name: Seq<char>, value: YamlTree, key: Seq<char>)
    ensures
        lookup(field(name, value), key) == if key == name {
            Some(value)
        } else {
            None
        },
{
    reveal_with_fuel(lookup_from, 3);
}

/// A field that may be left out is found under its own name only, where it
/// is there.
pub proof fn lemma_lookup_opt_field(name: Seq<char>, value: Option<YamlTree>, key: Seq<char>)
    ensures
        lookup(opt_field(name, value), key) == if key == name {
            value
        } else {
            None
        },
{
    reveal_with_fuel(lookup_from, 3);
}

/// The strings of a written list read back.
proof fn lemma_text_items(items: Seq<Seq<char>>, name: Seq<char>, n: int)
    requires
        0 <= n <= items.len(),
    ensures
        text_items(text_list(items)->List_0, name, n) == Ok::<Seq<Seq<char>>, MalformedView>(
            items.take(n),
        ),
    decreases n,
{
    if n > 0 {
        lemma_text_items(items, name, n - 1);
        assert(items.take(n - 1).push(items[n - 1]) =~= items.take(n));
    } else {
        assert(items.take(0) =~= Seq::empty());
    }
}

/// A written code reads back.
proof fn lemma_code(c: CodeView, name: Seq<char>)
    ensures
        code_of(code_tree(c), name) == Ok::<CodeView, MalformedView>(c),
{
    reveal_strlit("system");
    reveal_strlit("code");
    reveal_strlit("display");
    let a = text_field("system"@, c.system);
    let b = text_field("code"@, c.code);
    let d = text_field("display"@, c.display);
    assert("code"@.len() != "display"@.len());
    lemma_lookup_concat(a + b, d, "code"@);
    lemma_lookup_concat(a + b, d, "display"@);
    lemma_lookup_concat(a, b, "code"@);
    lemma_lookup_concat(a, b, "display"@);
    lemma_lookup_field("system"@, YamlTree::Text(c.system), "code"@);
    lemma_lookup_field("system"@, YamlTree::Text(c.system), "display"@);
    lemma_lookup_field("code"@, YamlTree::Text(c.code), "display"@);
}

/// The codes of a written list read back.
proof fn lemma_code_items(items: Seq<CodeView>, name: Seq<char>, n: int)
    requires
        0 <= n <= items.len(),
    ensures
        code_items(code_list(items)->List_0, name, n) == Ok::<Seq<CodeView>, MalformedView>(
            items.take(n),
        ),
    decreases n,
{
    if n > 0 {
        lemma_code_items(items, name, n - 1);
        lemma_code(items[n - 1], name);
        assert(items.take(n - 1).push(items[n - 1]) =~= items.take(n));
    } else {
        assert(items.take(0) =~= Seq::empty());
    }
}

/// A list of strings that was written, or left out for being empty, reads
/// back from the fields that hold it, whatever fields follow.
proof fn lemma_text_list_field(
    name: Seq<char>,
    label: Seq<char>,
    items: Seq<Seq<char>>,
    rest: Fields,
)
    requires
        lookup(rest, name) is None,
    ensures
        text_list_of(text_list_field(name, items) + rest, name, label) == Ok::<
            Seq<Seq<char>>,
            MalformedView,
        >(items),
{
    if items.len() == 0 {
        assert(items =~= Seq::empty());
    } else {
        lemma_text_items(items, label, items.len() as int);
        assert(items.take(items.len() as int) =~= items);
    }
}

/// A list of codes that was written, or left out for being empty, reads back
/// from the fields that hold it, whatever fields follow.
proof fn lemma_code_list_field(
    name: Seq<char>,
    label: Seq<char>,
    items: Seq<CodeView>,
    rest: Fields,
)
    requires
        lookup(rest, name) is None,
    ensures
        code_list_of(code_list_field(name, items) + rest, name, label) == Ok::<
            Seq<CodeView>,
            MalformedView,
        >(items),
{
    if items.len() == 0 {
        assert(items =~= Seq::empty());
    } else {
        lemma_code_items(items, label, items.len() as int);
        assert(items.take(items.len() as int) =~= items);
    }
}

/// A written author reads back.
pub proof fn lemma_author_round_trip(a: AuthorView)
    ensures
        author_of(author_tree(a)) == Ok::<AuthorView, MalformedView>(a),
{
    reveal_strlit("id");
    reveal_strlit("name");
    reveal_strlit("role");
    assert("name"@[0] != "role"@[0]);
    let x = text_field("id"@, a.id);
    let y = text_field("name"@, a.name);
    let z = opt_text_field("role"@, a.role);
    lemma_lookup_concat(x + y, z, "name"@);
    lemma_lookup_concat(x + y, z, "role"@);
    lemma_lookup_concat(x, y, "name"@);
    lemma_lookup_concat(x, y, "role"@);
    lemma_lookup_field("id"@, YamlTree::Text(a.id), "name"@);
    lemma_lookup_field("id"@, YamlTree::Text(a.id), "role"@);
    lemma_lookup_field("name"@, YamlTree::Text(a.name), "role"@);
}

/// A written context reads back.
pub proof fn lemma_context_round_trip(c: ContextView)
    ensures
        context_of(context_tree(c)) == Ok::<ContextView, MalformedView>(c),
{
    reveal_strlit("location");
    reveal_strlit("encounter_id");
    reveal_strlit("episode_id");
    assert("encounter_id"@.len() != "episode_id"@.len());
    let lt = match c.location {
        Some(r) => Some(YamlTree::Text(r)),
        None => None,
    };
    let nt = match c.encounter_id {
        Some(r) => Some(YamlTree::Text(r)),
        None => None,
    };
    let et = match c.episode_id {
        Some(r) => Some(YamlTree::Text(r)),
        None => None,
    };
    let x = opt_text_field("location"@, c.location);
    let y = opt_text_field("encounter_id"@, c.encounter_id);
    let z = opt_text_field("episode_id"@, c.episode_id);
    lemma_lookup_concat(x + y, z, "location"@);
    lemma_lookup_concat(x + y, z, "encounter_id"@);
    lemma_lookup_concat(x + y, z, "episode_id"@);
    lemma_lookup_concat(x, y, "encounter_id"@);
    lemma_lookup_concat(x, y, "episode_id"@);
    lemma_lookup_opt_field("location"@, lt, "encounter_id"@);
    lemma_lookup_opt_field("location"@, lt, "episode_id"@);
    lemma_lookup_opt_field("encounter_id"@, nt, "location"@);
    lemma_lookup_opt_field("encounter_id"@, nt, "episode_id"@);
    lemma_lookup_opt_field("episode_id"@, et, "location"@);
    lemma_lookup_opt_field("episode_id"@, et, "encounter_id"@);
}

/// Written links read back.
pub proof fn lemma_links_round_trip(l: LinksView)
    ensures
        links_of(links_tree(l)) == Ok::<LinksView, MalformedView>(l),
{
    reveal_strlit("related_imaging");
    reveal_strlit("related_files");
    assert("related_imaging"@.len() != "related_files"@.len());
    let x = text_list_field("related_imaging"@, l.related_imaging);
    let y = text_list_field("related_files"@, l.related_files);
    let empty = Seq::<(YamlTree, YamlTree)>::empty();
    if l.related_files.len() > 0 {
        lemma_lookup_field("related_files"@, text_list(l.related_files), "related_imaging"@);
    }
    lemma_text_list_field("related_imaging"@, "links.related_imaging"@, l.related_imaging, y);
    lemma_lookup_concat(x, y, "related_files"@);
    if l.related_imaging.len() > 0 {
        lemma_lookup_field("related_imaging"@, text_list(l.related_imaging), "related_files"@);
    }
    lemma_text_list_field("related_files"@, "links.related_files"@, l.related_files, empty);
}

/// Written codes read back.
pub proof fn lemma_codes_round_trip(c: CodesView)
    ensures
        codes_of(codes_tree(c)) == Ok::<CodesView, MalformedView>(c),
{
    reveal_strlit("diagnoses");
    reveal_strlit("procedures");
    assert("diagnoses"@.len() != "procedures"@.len());
    let x = code_list_field("diagnoses"@, c.diagnoses);
    let y = code_list_field("procedures"@, c.procedures);
    let empty = Seq::<(YamlTree, YamlTree)>::empty();
    if c.procedures.len() > 0 {
        lemma_lookup_field("procedures"@, code_list(c.procedures), "diagnoses"@);
    }
    lemma_code_list_field("diagnoses"@, "codes.diagnoses"@, c.diagnoses, y);
    lemma_lookup_concat(x, y, "procedures"@);
    if c.diagnoses.len() > 0 {
        lemma_lookup_field("diagnoses"@, code_list(c.diagnoses), "procedures"@);
    }
    lemma_code_list_field("procedures"@, "codes.procedures"@, c.procedures, empty);
}

/// The fields of a header as names and values; a value that is unset stands
/// for a field that is left out.
pub open spec fn header_segments(h: HeaderView) -> Seq<(Seq<char>, Option<YamlTree>)> {
    seq![
        ("gitehr_event_id"@, Some(YamlTree::Text(h.event_id))),
        ("gitehr_patient_id"@, Some(YamlTree::Text(h.patient_id))),
        ("recorded_at"@, Some(YamlTree::Text(h.recorded_at.header_stamp()))),
        ("author"@, Some(author_tree(h.author))),
        ("context"@, opt_context_tree(h.context)),
        ("links"@, opt_links_tree(h.links)),
        ("codes"@, opt_codes_tree(h.codes)),
        (
            "correction_of"@,
            match h.correction_of {
                Some(c) => Some(YamlTree::Text(c)),
                None => None,
            },
        ),
        (
            "parent_hash"@,
            match h.parent_hash {
                Some(c) => Some(YamlTree::Text(c)),
                None => None,
            },
        ),
        (
            "parent_entry"@,
            match h.parent_entry {
                Some(c) => Some(YamlTree::Text(c)),
                None => None,
            },
        ),
    ]
}

/// The fields that the first `n` segments stand for.
pub open spec fn joined_fields(segments: Seq<(Seq<char>, Option<YamlTree>)>, n: int) -> Fields
    decreases n,
{
    if n <= 0 {
        Seq::empty()
    } else {
        joined_fields(segments, n - 1) + opt_field(segments[n - 1].0, segments[n - 1].1)
    }
}

/// Among segments with distinct names, a name is looked up as the value of
/// its segment.
proof fn lemma_lookup_segment(segments: Seq<(Seq<char>, Option<YamlTree>)>, n: int, i: int)
    requires
        0 <= i < segments.len(),
        0 <= n <= segments.len(),
        forall|a: int, b: int|
            0 <= a < b < segments.len() ==> (#[trigger] segments[a]).0 != (
            #[trigger] segments[b]).0,
    ensures
        lookup(joined_fields(segments, n), segments[i].0) == if i < n {
            segments[i].1
        } else {
            None
        },
    decreases n,
{
    if n > 0 {
        lemma_lookup_segment(segments, n - 1, i);
        let last = segments[n - 1];
        lemma_lookup_concat(
            joined_fields(segments, n - 1),
            opt_field(last.0, last.1),
            segments[i].0,
        );
        lemma_lookup_opt_field(last.0, last.1, segments[i].0);
    }
}

/// The names of a header's fields are distinct.
proof fn lemma_header_names(h: HeaderView)
    ensures
        forall|a: int, b: int|
            0 <= a < b < header_segments(h).len() ==> (#[trigger] header_segments(h)[a]).0 != (
            #[trigger] header_segments(h)[b]).0,
        header_fields(h) == joined_fields(header_segments(h), 10),
{
    reveal_strlit("gitehr_event_id");
    reveal_strlit("gitehr_patient_id");
    reveal_strlit("recorded_at");
    reveal_strlit("author");
    reveal_strlit("context");
    reveal_strlit("links");
    reveal_strlit("codes");
    reveal_strlit("correction_of");
    reveal_strlit("parent_hash");
    reveal_strlit("parent_entry");
    let s = header_segments(h);
    assert("recorded_at"@[0] != "parent_hash"@[0]);
    assert("links"@[0] != "codes"@[0]);
    assert forall|a: int, b: int| 0 <= a < b < s.len() implies (#[trigger] s[a]).0 != (
    #[trigger] s[b]).0 by {
        assert(s[a].0.len() != s[b].0.len() || (a == 2 && b == 8) || (a == 5 && b == 6));
    }
    reveal_with_fuel(joined_fields, 11);
}

/// The YAML document of a header stands for that header, where the text of
/// its time reads as that time.
pub proof fn lemma_header_round_trip(h: HeaderView)
    ensures
        parsed_moment(h.recorded_at.header_stamp()) == Some(h.recorded_at) ==> header_of_tree(
            header_tree(h),
        ) == Ok::<HeaderView, MalformedView>(h),
{
    if parsed_moment(h.recorded_at.header_stamp()) == Some(h.recorded_at) {
        let s = header_segments(h);
        lemma_header_names(h);
        lemma_lookup_segment(s, 10, 1);
        lemma_lookup_segment(s, 10, 2);
        lemma_lookup_segment(s, 10, 3);
        lemma_lookup_segment(s, 10, 4);
        lemma_lookup_segment(s, 10, 5);
        lemma_lookup_segment(s, 10, 6);
        lemma_lookup_segment(s, 10, 7);
        lemma_lookup_segment(s, 10, 8);
        lemma_lookup_segment(s, 10, 9);
        lemma_author_round_trip(h.author);
        if h.context is Some {
            lemma_context_round_trip(h.context->0);
        }
        if h.links is Some {
            lemma_links_round_trip(h.links->0);
        }
        if h.codes is Some {
            lemma_codes_round_trip(h.codes->0);
        }
    }
}

/// Whether a header text can stand between the delimiters: the text, with
/// the line break before it and the two hyphens after it, holds no delimiter.
pub open spec fn splits_cleanly(yaml: Seq<char>) -> bool {
    forall|k: int| !delim_at(seq!['\n'] + yaml + seq!['-', '-'], k)
}

/// The search for a delimiter finds the first one.
proof fn lemma_find_first(s: Seq<char>, from: int, at: int)
    requires
        0 <= from <= at,
        delim_at(s, at),
        forall|k: int| from <= k < at ==> !delim_at(s, k),
    ensures
        find_delim(s, from) == Some(at),
    decreases at - from,
{
    if from < at {
        lemma_find_first(s, from + 1, at);
    }
}

/// The stored form splits into the header text, after the line break that
/// ends the opening delimiter, and the body, where the header text can stand
/// between the delimiters.
pub proof fn lemma_frame_splits(yaml: Seq<char>, body: Seq<char>)
    requires
        splits_cleanly(yaml),
    ensures
        split_spec(frame(yaml, body)) == Some((seq!['\n'] + yaml, body)),
{
    reveal_strlit("---\n");
    reveal_strlit("---\n\n");
    let content = frame(yaml, body);
    let inner = seq!['\n'] + yaml + seq!['-', '-'];
    let close = 4 + yaml.len() as int;
    assert forall|k: int| 3 <= k < close implies !delim_at(content, k) by {
        assert(!delim_at(inner, k - 3));
    }
    lemma_find_first(content, 3, close);
}

/// What is written reads back: the stored form of a header and a body
/// decodes to that header and that body, where the YAML writer's text can
/// stand between the delimiters, the YAML reader gives the document back,
/// and the text of the time reads as that time.
pub proof fn lemma_entry_round_trip(h: HeaderView, body: Seq<char>)
    ensures
        ({
            let yaml = emitted_yaml(header_tree(h));
            &&& yaml is Ok
            &&& splits_cleanly(yaml->Ok_0)
            &&& parsed_yaml(seq!['\n'] + yaml->Ok_0) == Ok::<YamlTree, Seq<char>>(header_tree(h))
            &&& parsed_moment(h.recorded_at.header_stamp()) == Some(h.recorded_at)
        }) ==> encode_spec(h, body) is Ok && decode_spec(encode_spec(h, body)->Ok_0) == Ok::<
            (HeaderView, Seq<char>),
            MalformedView,
        >((h, body)),
{
    let yaml = emitted_yaml(header_tree(h));
    if yaml is Ok && splits_cleanly(yaml->Ok_0) {
        lemma_frame_splits(yaml->Ok_0, body);
        lemma_header_round_trip(h);
    }
}

} // verus!
