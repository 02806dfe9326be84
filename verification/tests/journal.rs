use gitehr::codec::{decode_entry, encode_entry, frame_entry, split_entry, Malformed};
use gitehr::digest::digest_of;
use gitehr::entry::{
    AuthorInfo, CodeItem, ContextInfo, JournalCodes, JournalEntryHeader, JournalEntryInput,
    JournalLinks,
};
use gitehr::error::{JournalError, VerifyError};
use gitehr::fs_layout::FsLayout;
use gitehr::journal::{Journal, StoredEntry};
use gitehr::timestamp::Timestamp;
use gitehr::verify::verify_journal;
use gitehr::writer::{
    create_entry_with_id, create_journal_entry, create_journal_entry_with_layout, filename_for,
    fresh_event_id, get_latest_journal_entry, get_latest_journal_entry_for_patient,
};

fn at(second: u8) -> Timestamp {
    Timestamp::new(2024, 3, 9, 14, 5, second).unwrap()
}

fn author() -> AuthorInfo {
    AuthorInfo { id: "a1".to_string(), name: "Dr. A".to_string(), role: None }
}

fn request(patient: &str, second: u8, body: &str) -> JournalEntryInput {
    let mut input = JournalEntryInput::new(at(second));
    input.patient_id = patient.to_string();
    input.author = author();
    input.body = body.to_string();
    input
}

fn entries_of(journal: &Journal, patient: &str) -> Vec<StoredEntry> {
    journal.entries_of(patient)
}

fn event_id_of(content: &str) -> String {
    decode_entry(content).unwrap().0.gitehr_event_id
}

#[test]
fn test_create_journal_entry() {
    let layout = FsLayout::from_root("repo".to_string());
    let mut journal = Journal::new();
    let mut input = request("p1", 7, "Test entry");
    input.parent_hash = Some("test_hash".to_string());
    let path = create_journal_entry_with_layout(&layout, &mut journal, input).unwrap();

    let entries = entries_of(&journal, "p1");
    assert_eq!(entries.len(), 1);
    let entry = &entries[0];
    assert!(entry.filename.starts_with("2024-03-09T14-05-07Z--c"));
    assert!(entry.filename.ends_with(".md"));
    assert_eq!(entry.filename.len(), 20 + 2 + 33 + 3);
    assert_eq!(path, format!("repo/journal/patients/p1/{}", entry.filename));

    let (header, body) = decode_entry(&entry.content).unwrap();
    assert_eq!(header.parent_hash, Some("test_hash".to_string()));
    assert!(header.parent_entry.is_none());
    assert_eq!(header.gitehr_patient_id, "p1");
    assert_eq!(body, "Test entry");
    assert!(entry.content.contains("Test entry"));
}

#[test]
fn test_get_latest_journal_entry() {
    let mut journal = Journal::new();
    create_journal_entry(&mut journal, request("p1", 1, "First entry")).unwrap();
    create_journal_entry(&mut journal, request("p1", 2, "Second entry")).unwrap();

    let latest = get_latest_journal_entry(&journal, "p1").unwrap();
    let entries = entries_of(&journal, "p1");
    assert_eq!(entries.len(), 2);
    assert_eq!(latest.filename, entries[1].filename);
    assert!(entries[1].content.contains("Second entry"));
    assert_eq!(latest.hash, digest_of(&entries[1].content));
    assert_eq!(latest.path, format!("gitehr_fs/journal/patients/p1/{}", latest.filename));
}

#[test]
fn test_parent_entry_linking() {
    let mut journal = Journal::new();
    create_journal_entry(&mut journal, request("p1", 1, "First entry")).unwrap();
    let first = get_latest_journal_entry(&journal, "p1").unwrap();

    let mut second = request("p1", 2, "Second entry");
    second.parent_hash = Some(first.hash.clone());
    create_journal_entry(&mut journal, second).unwrap();

    let entries = entries_of(&journal, "p1");
    let (header, _) = decode_entry(&entries[1].content).unwrap();
    assert_eq!(header.parent_entry, Some(first.filename));
    assert_eq!(header.parent_hash, Some(first.hash));
}

#[test]
fn test_timestamp_ordering() {
    let mut journal = Journal::new();
    for i in 0..5u8 {
        create_journal_entry(&mut journal, request("p1", i, &format!("Entry {}", i))).unwrap();
    }
    let entries = entries_of(&journal, "p1");
    assert_eq!(entries.len(), 5);
    for i in 0..5usize {
        assert!(entries[i].content.contains(&format!("Entry {}", i)));
        assert!(entries[i].filename.starts_with(&format!("2024-03-09T14-05-0{}Z--", i)));
    }
    for i in 1..5usize {
        assert!(entries[i - 1].filename < entries[i].filename);
    }
}

#[test]
fn digest_of_known_texts() {
    assert_eq!(
        digest_of(""),
        "e3b0c44298fc1c149afbf4c8996fb92427ae41e4649b934ca495991b7852b855"
    );
    assert_eq!(
        digest_of("abc"),
        "ba7816bf8f01cfea414140de5dae2223b00361a396177a9cb410ff61f20015ad"
    );
}

#[test]
fn digest_changes_with_one_byte() {
    assert_ne!(digest_of("Note 1"), digest_of("Note 2"));
    assert_eq!(digest_of("Note 1"), digest_of("Note 1"));
}

#[test]
fn file_name_is_stamp_and_event_id() {
    let t = Timestamp::new(2024, 1, 2, 3, 4, 5).unwrap();
    assert_eq!(filename_for(&t, "cabc"), "2024-01-02T03-04-05Z--cabc.md");
    let early = Timestamp::new(7, 12, 31, 23, 59, 59).unwrap();
    assert_eq!(filename_for(&early, "x"), "0007-12-31T23-59-59Z--x.md");
}

#[test]
fn fresh_event_ids_are_c_and_hex() {
    let a = fresh_event_id();
    let b = fresh_event_id();
    assert_eq!(a.len(), 33);
    assert!(a.starts_with('c'));
    assert!(a[1..].chars().all(|c| c.is_ascii_digit() || ('a'..='f').contains(&c)));
    assert_ne!(a, b);
}

#[test]
fn frame_and_split() {
    assert_eq!(frame_entry("a: b\n", "Body"), "---\na: b\n---\n\nBody");
    assert_eq!(
        split_entry("---\na: b\n---\n\nBody"),
        Some(("\na: b\n".to_string(), "Body".to_string()))
    );
    assert_eq!(split_entry("no delimiter here"), None);
    assert_eq!(split_entry("x---rest"), Some(("rest".to_string(), String::new())));
    assert_eq!(split_entry("---h---body"), Some(("h".to_string(), "body".to_string())));
    assert_eq!(split_entry("---h---\n\n\nbody"), Some(("h".to_string(), "\nbody".to_string())));
    assert_eq!(split_entry("--"), None);
}

fn full_header() -> JournalEntryHeader {
    JournalEntryHeader {
        gitehr_event_id: "c0123".to_string(),
        gitehr_patient_id: "12345".to_string(),
        recorded_at: at(30),
        author: AuthorInfo {
            id: "a1".to_string(),
            name: "Dr. A: \"the\" first".to_string(),
            role: Some("Physician".to_string()),
        },
        context: Some(ContextInfo {
            location: Some("Ward 7".to_string()),
            encounter_id: None,
            episode_id: Some("ep-1".to_string()),
        }),
        links: Some(JournalLinks {
            related_imaging: vec!["imaging/x.dcm".to_string(), "imaging/y.dcm".to_string()],
            related_files: vec![],
        }),
        codes: Some(JournalCodes {
            diagnoses: vec![CodeItem {
                system: "ICD-10".to_string(),
                code: "J45".to_string(),
                display: "Asthma".to_string(),
            }],
            procedures: vec![],
        }),
        correction_of: Some("c0001".to_string()),
        parent_hash: Some("abcdef".to_string()),
        parent_entry: Some("2024-01-01T00-00-00Z--c0001.md".to_string()),
    }
}

#[test]
fn encode_then_decode_gives_the_header_back() {
    let header = full_header();
    let content = encode_entry(&header, "Line 1\nLine 2\n").unwrap();
    assert!(content.starts_with("---\ngitehr_event_id: c0123\ngitehr_patient_id: '12345'\nrecorded_at: 2024-03-09T14:05:30Z\nauthor:\n"));
    let (back, body) = decode_entry(&content).unwrap();
    assert!(back.same(&header));
    assert_eq!(body, "Line 1\nLine 2\n");
}

#[test]
fn encode_leaves_unset_fields_out() {
    let header = JournalEntryHeader {
        gitehr_event_id: "c1".to_string(),
        gitehr_patient_id: "p1".to_string(),
        recorded_at: at(0),
        author: author(),
        context: None,
        links: None,
        codes: None,
        correction_of: None,
        parent_hash: None,
        parent_entry: None,
    };
    let content = encode_entry(&header, "Note").unwrap();
    assert_eq!(
        content,
        "---\ngitehr_event_id: c1\ngitehr_patient_id: p1\nrecorded_at: 2024-03-09T14:05:00Z\nauthor:\n  id: a1\n  name: Dr. A\n---\n\nNote"
    );
    let (back, body) = decode_entry(&content).unwrap();
    assert!(back.context.is_none() && back.links.is_none() && back.codes.is_none());
    assert!(back.correction_of.is_none() && back.parent_hash.is_none());
    assert!(back.author.role.is_none());
    assert_eq!(body, "Note");
}

#[test]
fn decode_rejects_what_is_malformed() {
    assert!(matches!(decode_entry("just text"), Err(Malformed::NoFrontMatter)));
    assert!(matches!(decode_entry("---\n: : :\n  - [\n---\n\nx"), Err(Malformed::InvalidYaml(_))));
    assert!(matches!(
        decode_entry("---\ngitehr_patient_id: p1\n---\n\nx"),
        Err(Malformed::MissingField(f)) if f == "gitehr_event_id"
    ));
    assert!(matches!(
        decode_entry("---\ngitehr_event_id: c1\ngitehr_patient_id: 17\n---\n\nx"),
        Err(Malformed::WrongType(f)) if f == "gitehr_patient_id"
    ));
    assert!(matches!(
        decode_entry("---\ngitehr_event_id: c1\ngitehr_patient_id: p1\nrecorded_at: yesterday\n---\n\nx"),
        Err(Malformed::BadTimestamp(t)) if t == "yesterday"
    ));
    assert!(matches!(
        decode_entry("---\ngitehr_event_id: c1\ngitehr_patient_id: p1\nrecorded_at: 2024-03-09T14:05:00Z\n---\n\nx"),
        Err(Malformed::MissingField(f)) if f == "author"
    ));
    assert!(matches!(decode_entry("---\n- a\n- b\n---\n\nx"), Err(Malformed::WrongType(f)) if f == "header"));
}

#[test]
fn decode_reads_foreign_timestamps_in_utc() {
    let content = "---\ngitehr_event_id: c1\ngitehr_patient_id: p1\nrecorded_at: 2024-03-09T16:05:00.250+02:00\nauthor:\n  id: a1\n  name: Dr. A\nextra: ignored\n---\n\nNote";
    let (header, _) = decode_entry(content).unwrap();
    assert!(header.recorded_at.same_moment(&at(0)));
}

#[test]
fn create_rejects_missing_patient_and_author() {
    let mut journal = Journal::new();
    let err = create_journal_entry(&mut journal, request("", 1, "x")).unwrap_err();
    assert!(matches!(err, JournalError::MissingPatientId));
    assert!(err.is_validation());
    assert_eq!(err.message(), "patient_id is required for journal entries");

    let mut no_id = request("p1", 1, "x");
    no_id.author.id = String::new();
    let err = create_journal_entry(&mut journal, no_id).unwrap_err();
    assert!(matches!(err, JournalError::MissingAuthor));
    assert!(err.is_validation());

    let mut no_name = request("p1", 1, "x");
    no_name.author.name = String::new();
    assert!(matches!(
        create_journal_entry(&mut journal, no_name),
        Err(JournalError::MissingAuthor)
    ));
    assert_eq!(journal.partition_count(), 0);
}

#[test]
fn create_rejects_correction_of_nothing() {
    let mut journal = Journal::new();
    let mut input = request("p1", 1, "x");
    input.correction_of = Some("nonexistent".to_string());
    let err = create_journal_entry(&mut journal, input).unwrap_err();
    assert!(matches!(
        &err,
        JournalError::MissingCorrectionTarget { correction_of } if correction_of == "nonexistent"
    ));
    assert!(!err.is_validation());
    assert_eq!(journal.partition_count(), 0);

    create_journal_entry(&mut journal, request("p2", 1, "other patient")).unwrap();
    let other = event_id_of(&entries_of(&journal, "p2")[0].content);
    let mut across = request("p1", 2, "x");
    across.correction_of = Some(other);
    assert!(matches!(
        create_journal_entry(&mut journal, across),
        Err(JournalError::MissingCorrectionTarget { .. })
    ));
}

#[test]
fn create_rejects_a_second_entry_of_one_name() {
    let layout = FsLayout::new();
    let mut journal = Journal::new();
    create_entry_with_id(&layout, &mut journal, request("p1", 1, "one"), "c1".to_string()).unwrap();
    let err = create_entry_with_id(&layout, &mut journal, request("p1", 1, "two"), "c1".to_string())
        .unwrap_err();
    assert!(matches!(
        &err,
        JournalError::DuplicateEntry { filename } if filename == "2024-03-09T14-05-01Z--c1.md"
    ));
    let entries = entries_of(&journal, "p1");
    assert_eq!(entries.len(), 1);
    assert!(entries[0].content.ends_with("one"));
}

#[test]
fn create_rejects_an_event_id_that_is_taken() {
    let layout = FsLayout::new();
    let mut journal = Journal::new();
    create_entry_with_id(&layout, &mut journal, request("p1", 1, "one"), "c1".to_string()).unwrap();
    let err = create_entry_with_id(&layout, &mut journal, request("p1", 2, "two"), "c1".to_string())
        .unwrap_err();
    assert!(matches!(&err, JournalError::DuplicateEventId { event_id } if event_id == "c1"));
    assert_eq!(err.message(), "event id 'c1' is taken");
    assert_eq!(entries_of(&journal, "p1").len(), 1);
    create_entry_with_id(&layout, &mut journal, request("p2", 2, "two"), "c1".to_string()).unwrap();
    assert_eq!(entries_of(&journal, "p2").len(), 1);
}

#[test]
fn create_rejects_what_would_not_read_back() {
    let mut journal = Journal::new();
    let err = create_journal_entry(&mut journal, request("a---b", 1, "x")).unwrap_err();
    assert!(matches!(err, JournalError::InvalidHeader { .. }));
    assert_eq!(journal.partition_count(), 0);
}

#[test]
fn create_uses_the_event_id_of_the_request() {
    let mut journal = Journal::new();
    let mut input = request("p1", 1, "x");
    input.event_id = Some("my-event".to_string());
    let path = create_journal_entry(&mut journal, input).unwrap();
    assert_eq!(path, "gitehr_fs/journal/patients/p1/2024-03-09T14-05-01Z--my-event.md");
    assert_eq!(event_id_of(&entries_of(&journal, "p1")[0].content), "my-event");
}

#[test]
fn latest_is_none_without_entries() {
    let mut journal = Journal::new();
    let layout = FsLayout::new();
    assert!(get_latest_journal_entry(&journal, "p1").is_none());
    journal.ensure_partition("p1");
    assert_eq!(journal.partition_count(), 1);
    assert!(get_latest_journal_entry_for_patient(&layout, &journal, "p1").is_none());
    create_journal_entry(&mut journal, request("p2", 1, "x")).unwrap();
    assert!(get_latest_journal_entry(&journal, "p1").is_none());
    assert!(get_latest_journal_entry(&journal, "p2").is_some());
}

#[test]
fn latest_is_the_last_of_n_creates() {
    let mut journal = Journal::new();
    let mut last_path = String::new();
    for i in 0..9u8 {
        last_path = create_journal_entry(&mut journal, request("p1", i * 5, "n")).unwrap();
        let latest = get_latest_journal_entry(&journal, "p1").unwrap();
        assert_eq!(latest.path, last_path);
    }
    let latest = get_latest_journal_entry(&journal, "p1").unwrap();
    assert!(latest.filename.starts_with("2024-03-09T14-05-40Z--"));
    assert_eq!(latest.path, last_path);
}

#[test]
fn verify_accepts_a_chain() {
    let mut journal = Journal::new();
    create_journal_entry(&mut journal, request("p1", 1, "A")).unwrap();
    let a = get_latest_journal_entry(&journal, "p1").unwrap();
    let mut b = request("p1", 2, "B");
    b.parent_hash = Some(a.hash);
    create_journal_entry(&mut journal, b).unwrap();
    let report = verify_journal(Some(&journal));
    assert!(report.is_verified());
    assert_eq!(report.entries_checked, 2);
}

#[test]
fn verify_detects_a_changed_parent() {
    let mut journal = Journal::new();
    create_journal_entry(&mut journal, request("p1", 1, "Note 1")).unwrap();
    let a = get_latest_journal_entry(&journal, "p1").unwrap();
    let mut b = request("p1", 2, "B");
    b.parent_hash = Some(a.hash.clone());
    create_journal_entry(&mut journal, b).unwrap();
    assert!(verify_journal(Some(&journal)).is_verified());

    let entries = entries_of(&journal, "p1");
    let mut tampered = Journal::new();
    let changed = entries[0].content.replace("Note 1", "Note 2");
    assert_ne!(changed, entries[0].content);
    assert!(tampered.insert_entry(
        "p1",
        StoredEntry { filename: entries[0].filename.clone(), content: changed }
    ));
    assert!(tampered.insert_entry("p1", entries[1].clone()));
    let report = verify_journal(Some(&tampered));
    assert!(!report.is_verified());
    assert_eq!(report.entries_checked, 2);
    assert!(matches!(
        report.failure,
        Some(VerifyError::ParentNotFound { ref entry_file, ref parent_hash })
            if *entry_file == entries[1].filename && *parent_hash == a.hash
    ));
}

#[test]
fn verify_detects_a_wrong_parent_name() {
    let mut journal = Journal::new();
    create_journal_entry(&mut journal, request("p1", 1, "A")).unwrap();
    let a = get_latest_journal_entry(&journal, "p1").unwrap();
    create_journal_entry(&mut journal, request("p1", 2, "B")).unwrap();
    let b = get_latest_journal_entry(&journal, "p1").unwrap();

    let header = JournalEntryHeader {
        gitehr_event_id: "c3".to_string(),
        gitehr_patient_id: "p1".to_string(),
        recorded_at: at(3),
        author: author(),
        context: None,
        links: None,
        codes: None,
        correction_of: None,
        parent_hash: Some(a.hash.clone()),
        parent_entry: Some(b.filename.clone()),
    };
    let content = encode_entry(&header, "C").unwrap();
    assert!(journal.insert_entry(
        "p1",
        StoredEntry { filename: filename_for(&at(3), "c3"), content }
    ));
    let report = verify_journal(Some(&journal));
    assert_eq!(report.entries_checked, 3);
    assert!(matches!(
        report.failure,
        Some(VerifyError::BrokenChain { ref expected, ref found, .. })
            if *expected == a.filename && *found == b.filename
    ));
}

#[test]
fn verify_detects_a_patient_mismatch_and_an_invalid_entry() {
    let mut journal = Journal::new();
    create_journal_entry(&mut journal, request("p1", 1, "A")).unwrap();
    let entry = entries_of(&journal, "p1")[0].clone();

    let mut moved = Journal::new();
    assert!(moved.insert_entry("p2", entry.clone()));
    let report = verify_journal(Some(&moved));
    assert_eq!(report.entries_checked, 1);
    assert!(matches!(
        report.failure,
        Some(VerifyError::PatientMismatch { ref expected, ref found, .. })
            if expected == "p2" && found == "p1"
    ));

    let mut broken = Journal::new();
    assert!(broken.insert_entry(
        "p1",
        StoredEntry { filename: "0.md".to_string(), content: "no header".to_string() }
    ));
    assert!(broken.insert_entry("p1", entry));
    let report = verify_journal(Some(&broken));
    assert_eq!(report.entries_checked, 1);
    let failure = report.failure.unwrap();
    assert!(matches!(
        &failure,
        VerifyError::InvalidEntry { entry_file, reason }
            if entry_file == "0.md" && reason == "Missing YAML front matter"
    ));
    assert_eq!(failure.message(), "invalid entry 0.md: Missing YAML front matter");
}

#[test]
fn findings_by_kind() {
    let missing = VerifyError::MissingJournal;
    assert_eq!(missing.kind(), "MissingJournal");
    assert_eq!(missing.entry_file(), None);
    assert!(!missing.is_linkage());
    assert_eq!(missing.message(), "journal directory not found");
    let f = || "f.md".to_string();
    let invalid = VerifyError::InvalidEntry { entry_file: f(), reason: "r".to_string() };
    assert_eq!((invalid.kind().as_str(), invalid.is_linkage()), ("InvalidEntry", false));
    assert_eq!(invalid.entry_file(), Some(f()));
    let mismatch = VerifyError::PatientMismatch {
        entry_file: f(),
        expected: "p1".to_string(),
        found: "p2".to_string(),
    };
    assert_eq!((mismatch.kind().as_str(), mismatch.is_linkage()), ("PatientMismatch", true));
    assert_eq!(mismatch.message(), "patient mismatch in f.md: expected p1, found p2");
    let target =
        VerifyError::MissingCorrectionTarget { entry_file: f(), correction_of: "c0".to_string() };
    assert_eq!((target.kind().as_str(), target.is_linkage()), ("MissingCorrectionTarget", true));
    assert_eq!(
        target.message(),
        "correction target 'c0' referenced in f.md does not exist"
    );
    let parent = VerifyError::ParentNotFound { entry_file: f(), parent_hash: "ab".to_string() };
    assert_eq!((parent.kind().as_str(), parent.is_linkage()), ("ParentNotFound", true));
    assert_eq!(parent.message(), "parent hash ab referenced in f.md matches no earlier entry");
    let chain = VerifyError::BrokenChain {
        entry_file: f(),
        expected: "a.md".to_string(),
        found: "b.md".to_string(),
    };
    assert_eq!((chain.kind().as_str(), chain.is_linkage()), ("BrokenChain", true));
    assert_eq!(chain.entry_file(), Some(f()));
    assert_eq!(chain.message(), "broken chain in f.md: expected parent a.md, found b.md");
}

#[test]
fn verify_of_nothing() {
    let report = verify_journal(None);
    assert!(matches!(report.failure, Some(VerifyError::MissingJournal)));
    assert_eq!(report.entries_checked, 0);
    let empty = Journal::new();
    let report = verify_journal(Some(&empty));
    assert!(report.is_verified());
    assert_eq!(report.entries_checked, 0);
}

#[test]
fn same_time_and_distinct_event_ids() {
    let layout = FsLayout::new();
    let mut journal = Journal::new();
    let a = create_entry_with_id(&layout, &mut journal, request("p1", 1, "A"), "cb".to_string())
        .unwrap();
    let b = create_entry_with_id(&layout, &mut journal, request("p1", 1, "B"), "ca".to_string())
        .unwrap();
    assert_ne!(a, b);
    let entries = entries_of(&journal, "p1");
    assert_eq!(entries.len(), 2);
    assert_eq!(entries[0].filename, "2024-03-09T14-05-01Z--ca.md");
    assert_eq!(entries[1].filename, "2024-03-09T14-05-01Z--cb.md");
    let report = verify_journal(Some(&journal));
    assert!(report.is_verified());
    assert_eq!(report.entries_checked, 2);
}

#[test]
fn correction_scenario() {
    let layout = FsLayout::from_root("repo".to_string());
    let mut journal = Journal::new();
    let path1 =
        create_journal_entry_with_layout(&layout, &mut journal, request("p1", 1, "Note 1")).unwrap();
    let first = entries_of(&journal, "p1")[0].clone();
    assert_eq!(path1, format!("repo/journal/patients/p1/{}", first.filename));
    let eid1 = event_id_of(&first.content);
    assert_eq!(first.filename, format!("2024-03-09T14-05-01Z--{}.md", eid1));

    let latest = get_latest_journal_entry_for_patient(&layout, &journal, "p1").unwrap();
    assert_eq!(latest.filename, first.filename);
    assert_eq!(latest.hash, digest_of(&first.content));
    assert_eq!(latest.path, path1);

    let mut correction = request("p1", 2, "Note 1, corrected");
    correction.correction_of = Some(eid1.clone());
    create_journal_entry_with_layout(&layout, &mut journal, correction).unwrap();
    let report = verify_journal(Some(&journal));
    assert!(report.is_verified());
    assert_eq!(report.entries_checked, 2);

    let second = entries_of(&journal, "p1")[1].clone();
    let mut without_first = Journal::new();
    assert!(without_first.insert_entry("p1", second.clone()));
    let report = verify_journal(Some(&without_first));
    assert_eq!(report.entries_checked, 1);
    assert!(matches!(
        report.failure,
        Some(VerifyError::MissingCorrectionTarget { ref entry_file, ref correction_of })
            if *entry_file == second.filename && *correction_of == eid1
    ));
}

#[test]
fn insert_keeps_file_name_order_and_refuses_duplicates() {
    let mut journal = Journal::new();
    let e = |name: &str| StoredEntry { filename: name.to_string(), content: name.to_string() };
    assert!(journal.insert_entry("p", e("b")));
    assert!(journal.insert_entry("p", e("a")));
    assert!(journal.insert_entry("p", e("c")));
    assert!(journal.insert_entry("p", e("ab")));
    assert!(!journal.insert_entry("p", e("a")));
    assert!(journal.insert_entry("q", e("a")));
    let names: Vec<String> = entries_of(&journal, "p").into_iter().map(|s| s.filename).collect();
    assert_eq!(names, vec!["a", "ab", "b", "c"]);
    assert_eq!(journal.partition_count(), 2);
    assert_eq!(journal.find_partition("q"), Some(1));
    assert_eq!(journal.find_partition("r"), None);
}
