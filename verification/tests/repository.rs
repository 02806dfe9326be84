use gitehr::error::{ConfigError, FsError, GitehrError, JournalError, RepoError};
use gitehr::fs_layout::{join_path, FsLayout};
use gitehr::git::{
    get_git_version, git_add, git_commit, git_init, git_version_args, run_git_command, GitRun,
};
use gitehr::gui::{
    contributor_info, entry_info, get_contributors, get_journal_entries, get_state_files,
    get_status, looks_like_entry, preview_of,
};
use gitehr::journal::{Journal, StoredEntry};
use gitehr::maintenance::{
    create_transport_archive, decrypt_repository, encrypt_repository, ensure_config,
    extract_transport_archive, find_gui_binary, get_current_version, init_message,
    upgrade_binary, upgrade_repository,
};
use gitehr::objects::{
    blob_header, object_path, object_path_of, parse_object_header, size_of_text, HeaderError,
};
use gitehr::state::{
    get_state_dir, list_state_files, run_state_get, run_state_list, run_state_set,
    update_state_file, view_state_file, StateFile,
};
use gitehr::status::{
    check_git_status, count_journal_entries, lines_of, list_state_names, run_status, RepoFacts,
    RepoStatus,
};
use gitehr::text::{number_text, text_contains, text_ends_with, text_lt, trimmed};
use gitehr::timestamp::{StampFields, Timestamp};

fn noon() -> Timestamp {
    Timestamp::new(2025, 6, 1, 12, 0, 0).unwrap()
}

fn texts(items: &[&str]) -> Vec<String> {
    items.iter().map(|s| s.to_string()).collect()
}

fn state(name: &str, content: &str) -> StateFile {
    StateFile {
        name: name.to_string(),
        content: content.to_string(),
        last_modified: Some("2025-06-01T12:00:00Z".to_string()),
    }
}

#[test]
fn layout_paths() {
    let layout = FsLayout::new();
    assert_eq!(layout.root(), "gitehr_fs");
    assert_eq!(layout.gitehr_dir(), "gitehr_fs/.gitehr");
    assert_eq!(layout.config_path(), "gitehr_fs/.gitehr/config.toml");
    assert_eq!(layout.journal_dir(), "gitehr_fs/journal");
    assert_eq!(layout.journal_patients_dir(), "gitehr_fs/journal/patients");
    assert_eq!(layout.patient_journal_dir("p1"), "gitehr_fs/journal/patients/p1");
    assert_eq!(layout.imaging_dir(), "gitehr_fs/imaging");
    assert_eq!(layout.state_dir(), "gitehr_fs/state");
    assert_eq!(
        layout.ensure_structure(),
        vec![
            "gitehr_fs",
            "gitehr_fs/.gitehr",
            "gitehr_fs/journal",
            "gitehr_fs/journal/patients",
            "gitehr_fs/imaging",
            "gitehr_fs/state",
        ]
    );
}

#[test]
fn layout_joins_as_paths_do() {
    assert_eq!(join_path("a", "b"), "a/b");
    assert_eq!(join_path("a/", "b"), "a/b");
    assert_eq!(join_path("", "b"), "b");
    assert_eq!(join_path("a", "/b"), "/b");
    assert_eq!(join_path("a", ""), "a/");
    assert_eq!(join_path("/", "b"), "/b");
    let layout = FsLayout::from_root("/srv/ehr/".to_string());
    assert_eq!(layout.journal_dir(), "/srv/ehr/journal");
    assert_eq!(layout.patient_journal_dir("/abs"), "/abs");
}

#[test]
fn timestamps_are_valid_moments() {
    assert!(Timestamp::new(2024, 2, 29, 0, 0, 0).is_some());
    assert!(Timestamp::new(2023, 2, 29, 0, 0, 0).is_none());
    assert!(Timestamp::new(1900, 2, 29, 0, 0, 0).is_none());
    assert!(Timestamp::new(2000, 2, 29, 0, 0, 0).is_some());
    assert!(Timestamp::new(2024, 4, 31, 0, 0, 0).is_none());
    assert!(Timestamp::new(2024, 0, 1, 0, 0, 0).is_none());
    assert!(Timestamp::new(2024, 13, 1, 0, 0, 0).is_none());
    assert!(Timestamp::new(2024, 1, 0, 0, 0, 0).is_none());
    assert!(Timestamp::new(2024, 1, 1, 24, 0, 0).is_none());
    assert!(Timestamp::new(2024, 1, 1, 0, 60, 0).is_none());
    assert!(Timestamp::new(2024, 1, 1, 0, 0, 60).is_none());
    assert!(Timestamp::new(10000, 1, 1, 0, 0, 0).is_none());
    assert!(Timestamp::new(0, 1, 1, 0, 0, 0).is_some());
    assert!(Timestamp::new(9999, 12, 31, 23, 59, 59).is_some());
    let t = Timestamp::new(2024, 2, 29, 13, 7, 9).unwrap();
    assert_eq!((t.year(), t.month(), t.day()), (2024, 2, 29));
    assert_eq!((t.hour(), t.minute(), t.second()), (13, 7, 9));
}

#[test]
fn timestamps_in_their_three_forms() {
    let t = Timestamp::new(2024, 2, 29, 13, 7, 9).unwrap();
    assert_eq!(t.file_stamp(), "2024-02-29T13-07-09Z");
    assert_eq!(t.header_stamp(), "2024-02-29T13:07:09Z");
    assert_eq!(t.compact_stamp(), "20240229-130709");
    let first = Timestamp::new(0, 1, 1, 0, 0, 0).unwrap();
    assert_eq!(first.file_stamp(), "0000-01-01T00-00-00Z");
    let last = Timestamp::new(9999, 12, 31, 23, 59, 59).unwrap();
    assert_eq!(last.header_stamp(), "9999-12-31T23:59:59Z");
}

#[test]
fn timestamps_are_read_from_text() {
    let t = Timestamp::new(2024, 2, 29, 13, 7, 9).unwrap();
    assert!(Timestamp::parse("2024-02-29T13:07:09Z").unwrap().same_moment(&t));
    assert!(Timestamp::parse(&t.header_stamp()).unwrap().same_moment(&t));
    assert!(Timestamp::parse("2024-02-29T15:07:09.5+02:00").unwrap().same_moment(&t));
    assert!(Timestamp::parse("2024-02-29").is_none());
    assert!(Timestamp::parse("").is_none());
    assert!(Timestamp::parse("0000-01-01T00:00:00+01:00").is_none());
    let fields = StampFields { year: 2024, month: 2, day: 30, hour: 0, minute: 0, second: 0 };
    assert!(Timestamp::from_fields(fields).is_none());
    let fields = StampFields { year: -1, month: 2, day: 3, hour: 0, minute: 0, second: 0 };
    assert!(Timestamp::from_fields(fields).is_none());
    let fields = StampFields { year: 2024, month: 2, day: 3, hour: 4, minute: 5, second: 6 };
    assert_eq!(Timestamp::from_fields(fields).unwrap().file_stamp(), "2024-02-03T04-05-06Z");
}

#[test]
fn earlier_moments_have_names_that_sort_first() {
    let moments = [
        Timestamp::new(1999, 12, 31, 23, 59, 59).unwrap(),
        Timestamp::new(2000, 1, 1, 0, 0, 0).unwrap(),
        Timestamp::new(2000, 1, 1, 0, 0, 1).unwrap(),
        Timestamp::new(2000, 1, 1, 0, 1, 0).unwrap(),
        Timestamp::new(2000, 1, 1, 1, 0, 0).unwrap(),
        Timestamp::new(2000, 1, 2, 0, 0, 0).unwrap(),
        Timestamp::new(2000, 2, 1, 0, 0, 0).unwrap(),
        Timestamp::new(2010, 1, 1, 0, 0, 0).unwrap(),
    ];
    for i in 0..moments.len() {
        for j in 0..moments.len() {
            assert_eq!(moments[i].is_before(&moments[j]), i < j);
            assert_eq!(text_lt(&moments[i].file_stamp(), &moments[j].file_stamp()), i < j);
        }
    }
}

#[test]
fn texts_are_ordered_by_code_point() {
    assert!(text_lt("a", "b"));
    assert!(text_lt("a", "ab"));
    assert!(text_lt("", "a"));
    assert!(!text_lt("a", "a"));
    assert!(!text_lt("b", "a"));
    assert!(text_lt("Z", "a"));
    assert!(text_lt("z", "é"));
    assert!(text_lt("é", "😀"));
    for (a, b) in [("abc", "abd"), ("x", "é"), ("", ""), ("10", "9")] {
        assert_eq!(text_lt(a, b), a < b);
    }
}

#[test]
fn text_helpers() {
    assert_eq!(trimmed("  a b \n"), "a b");
    assert_eq!(trimmed("\u{2003}x\u{a0}"), "x");
    assert_eq!(trimmed("   "), "");
    assert_eq!(trimmed(""), "");
    assert_eq!(trimmed("x"), "x");
    assert!(text_contains("created_at = 1", "created_at"));
    assert!(text_contains("abc", ""));
    assert!(!text_contains("abc", "abcd"));
    assert!(!text_contains("ab-ab", "aba"));
    assert!(text_ends_with("a.md", ".md"));
    assert!(!text_ends_with("md", ".md"));
    assert_eq!(number_text(0), "0");
    assert_eq!(number_text(7), "7");
    assert_eq!(number_text(10), "10");
    assert_eq!(number_text(12345), "12345");
    assert_eq!(number_text(usize::MAX), usize::MAX.to_string());
}

#[test]
fn test_list_state_files_empty() {
    let files = list_state_files(Vec::new());
    assert_eq!(files.len(), 0, "No files should exist initially");
}

#[test]
fn test_update_state_file() {
    let (write, message) = update_state_file("test_state.txt", "test content here");
    assert_eq!(write.path, "state/test_state.txt");
    assert_eq!(write.content, "test content here");
    assert_eq!(message, "Updated state file: test_state.txt");
    assert_eq!(get_state_dir(), "state");
}

#[test]
fn test_view_state_file() {
    let filename = "view_test.txt";
    let content = "file content for viewing";
    let read = Some((content.to_string(), Some("2025-06-01T12:00:00Z".to_string())));
    let state_file = view_state_file(filename, read).unwrap();
    assert_eq!(state_file.name, filename);
    assert_eq!(state_file.content, content);
    assert!(state_file.last_modified.is_some());
}

#[test]
fn test_view_nonexistent_state_file() {
    let result = view_state_file("nonexistent.txt", None);
    assert!(result.is_err(), "Should fail for nonexistent file");
    assert_eq!(result.unwrap_err(), "State file 'nonexistent.txt' not found");
}

#[test]
fn test_list_state_files_multiple() {
    let files = list_state_files(vec![
        state("file1.txt", "content1"),
        state("file2.txt", "content2"),
        state("file3.txt", "content3"),
    ]);
    assert_eq!(files.len(), 3, "Should list all created files");
    let names: Vec<_> = files.iter().map(|f| &f.name).collect();
    assert!(names.contains(&&"file1.txt".to_string()));
    assert!(names.contains(&&"file2.txt".to_string()));
    assert!(names.contains(&&"file3.txt".to_string()));
}

#[test]
fn test_list_state_files_excludes_readme() {
    let files = list_state_files(vec![state("README.md", "about"), state("data.txt", "d")]);
    assert_eq!(files.len(), 1);
    assert_eq!(files[0].name, "data.txt");
    assert_eq!(files[0].content, "d");
}

#[test]
fn test_update_state_file_overwrites() {
    let filename = "overwrite_test.txt";
    let (first, _) = update_state_file(filename, "first content");
    let (second, _) = update_state_file(filename, "new content");
    assert_eq!(first.path, second.path);
    let state_file = view_state_file(filename, Some((second.content, None))).unwrap();
    assert_eq!(state_file.content, "new content", "Content should be updated");
}

#[test]
fn test_state_files_sorted_alphabetically() {
    let files =
        list_state_files(vec![state("zebra.txt", "z"), state("apple.txt", "a"), state("banana.txt", "b")]);
    assert_eq!(files[0].name, "apple.txt");
    assert_eq!(files[1].name, "banana.txt");
    assert_eq!(files[2].name, "zebra.txt");
    assert_eq!(files[0].content, "a");
    assert_eq!(files[2].content, "z");
}

#[test]
fn test_state_files_have_modification_time() {
    let at = noon().header_stamp();
    let state_file = view_state_file("time_test.txt", Some(("content".to_string(), Some(at)))).unwrap();
    assert!(state_file.last_modified.is_some(), "Should have modification time");
    let mod_time = state_file.last_modified.unwrap();
    assert!(mod_time.contains("T"), "Time format should be ISO 8601");
    assert!(mod_time.contains("Z"), "Time should be in UTC");
}

#[test]
fn state_commands() {
    let outside = "Not a GitEHR repository (or not in the repository root).";
    assert_eq!(run_state_set(false, "a", "b").unwrap_err(), outside);
    let write = run_state_set(true, "a.txt", "b").unwrap();
    assert_eq!((write.path.as_str(), write.content.as_str()), ("state/a.txt", "b"));
    assert_eq!(run_state_get(false, "a", None).unwrap_err(), outside);
    assert_eq!(run_state_get(true, "a", None).unwrap_err(), "State file 'a' not found");
    assert_eq!(run_state_get(true, "a", Some(("text".to_string(), None))).unwrap(), "text");
    assert_eq!(run_state_list(false, &Vec::new()).unwrap_err(), outside);
    assert_eq!(
        run_state_list(true, &Vec::new()).unwrap(),
        vec!["No state files found.", "Use 'gitehr state set <filename> <content>' to create one."]
    );
    let mut plain = state("b.txt", "");
    plain.last_modified = None;
    assert_eq!(
        run_state_list(true, &vec![state("a.txt", ""), plain]).unwrap(),
        vec!["State files:", "  - a.txt", "    Last modified: 2025-06-01T12:00:00Z", "  - b.txt"]
    );
}

fn facts() -> RepoFacts {
    RepoFacts {
        has_gitehr_dir: true,
        version: Some("0.1.0\n".to_string()),
        journal_names: texts(&["a.md", "b.md", "notes.txt", ".md", "c.md.bak", "d"]),
        state_names: texts(&["README.md", "allergies.md", "meds.txt"]),
        git_status: Some(" M journal/a.md\n?? state/meds.txt\r\n\n".to_string()),
        has_encrypted_marker: true,
    }
}

#[test]
fn test_gather_non_gitehr_repo() {
    let mut found = facts();
    found.has_gitehr_dir = false;
    let status = RepoStatus::gather(found);
    assert!(!status.is_gitehr_repo, "Should not be a GitEHR repo");
    assert!(status.gitehr_version.is_none());
    assert_eq!(status.journal_entry_count, 0);
    assert_eq!(status.state_files.len(), 0);
    assert!(!status.has_uncommitted_changes);
    assert!(!status.is_encrypted);
}

fn found(version: Option<&str>, journal: &[&str], state: &[&str], encrypted: bool) -> RepoFacts {
    RepoFacts {
        has_gitehr_dir: true,
        version: version.map(|v| v.to_string()),
        journal_names: texts(journal),
        state_names: texts(state),
        git_status: None,
        has_encrypted_marker: encrypted,
    }
}

#[test]
fn test_gather_gitehr_repo_with_version() {
    let status = RepoStatus::gather(found(Some("0.1.5"), &[], &[], false));
    assert!(status.is_gitehr_repo, "Should be a GitEHR repo");
    assert_eq!(status.gitehr_version, Some("0.1.5".to_string()), "Version should match");
}

#[test]
fn test_gather_counts_journal_entries() {
    let journal = ["entry1.md", "entry2.md", "entry3.md"];
    let status = RepoStatus::gather(found(Some("0.1.0"), &journal, &[], false));
    assert_eq!(status.journal_entry_count, 3, "Should count all journal entries");
}

#[test]
fn test_gather_lists_state_files() {
    let state = ["config.txt", "notes.txt"];
    let status = RepoStatus::gather(found(Some("0.1.0"), &[], &state, false));
    assert_eq!(status.state_files.len(), 2, "Should list all state files");
    assert!(status.state_files.contains(&"config.txt".to_string()));
    assert!(status.state_files.contains(&"notes.txt".to_string()));
}

#[test]
fn test_gather_detects_encryption() {
    let status = RepoStatus::gather(found(Some("0.1.0"), &[], &[], true));
    assert!(status.is_encrypted, "Should detect encrypted repository");
}

#[test]
fn test_gather_detects_unencrypted() {
    let status = RepoStatus::gather(found(Some("0.1.0"), &[], &[], false));
    assert!(!status.is_encrypted, "Should not be encrypted");
}

#[test]
fn test_gather_with_empty_directories() {
    let status = RepoStatus::gather(found(Some("0.1.0"), &[], &[], false));
    assert_eq!(status.journal_entry_count, 0);
    assert_eq!(status.state_files.len(), 0);
    assert!(!status.has_uncommitted_changes);
}

#[test]
fn test_gather_no_version_file() {
    let status = RepoStatus::gather(found(None, &[], &[], false));
    assert!(status.is_gitehr_repo);
    assert!(status.gitehr_version.is_none(), "Version should be None if file missing");
}

#[test]
fn test_gather_full_status() {
    let status = RepoStatus::gather(facts());
    assert!(status.is_gitehr_repo);
    assert_eq!(status.gitehr_version.as_deref(), Some("0.1.0\n"));
    assert_eq!(status.journal_entry_count, 2);
    assert_eq!(status.state_files, vec!["allergies.md", "meds.txt"]);
    assert!(status.has_uncommitted_changes);
    assert_eq!(status.uncommitted_files, vec![" M journal/a.md", "?? state/meds.txt"]);
    assert!(status.is_encrypted);
}

#[test]
fn test_gather_ignores_non_md_files_in_journal() {
    assert_eq!(count_journal_entries(&texts(&["a.md", "b.txt", "c.MD", "d.md"])), 2);
    assert_eq!(count_journal_entries(&texts(&[".md", "x.md"])), 1);
    assert_eq!(count_journal_entries(&Vec::new()), 0);
}

#[test]
fn test_gather_excludes_readme_from_state() {
    assert_eq!(list_state_names(&texts(&["README.md", "a", "readme.md"])), vec!["a", "readme.md"]);
}

#[test]
fn lines_of_a_report() {
    assert_eq!(lines_of("a\nb\n"), vec!["a", "b"]);
    assert_eq!(lines_of("a\r\nb"), vec!["a", "b"]);
    assert_eq!(lines_of("\n\na\n\n"), vec!["a"]);
    assert_eq!(lines_of("a\r"), vec!["a\r"]);
    assert_eq!(lines_of("\r\n"), Vec::<String>::new());
    assert_eq!(lines_of(""), Vec::<String>::new());
    for text in ["x\ny", "x\r\n\r\ny\n", " \n", "\rx\n"] {
        let expected: Vec<&str> = text.lines().filter(|l| !l.is_empty()).collect();
        assert_eq!(lines_of(text), expected);
    }
    assert_eq!(check_git_status(&None), (false, Vec::new()));
    assert_eq!(check_git_status(&Some("\n".to_string())), (false, Vec::new()));
    assert_eq!(check_git_status(&Some(" M a\n".to_string())), (true, texts(&[" M a"])));
}

#[test]
fn status_report() {
    let mut found = facts();
    found.has_gitehr_dir = false;
    assert_eq!(
        run_status(&RepoStatus::gather(found)),
        vec![
            "Not a GitEHR repository (or not in the repository root).",
            "Run 'gitehr init' to create a new repository.",
        ]
    );
    assert_eq!(
        run_status(&RepoStatus::gather(facts())),
        vec![
            "GitEHR Repository Status",
            "========================",
            "",
            "Repository version: 0.1.0",
            "Encryption: Encrypted",
            "",
            "Journal entries: 2",
            "State files: 2",
            "  - allergies.md",
            "  - meds.txt",
            "",
            "Uncommitted changes:",
            "   M journal/a.md",
            "  ?? state/meds.txt",
        ]
    );
    let clean = RepoFacts {
        has_gitehr_dir: true,
        version: None,
        journal_names: Vec::new(),
        state_names: Vec::new(),
        git_status: None,
        has_encrypted_marker: false,
    };
    assert_eq!(
        run_status(&RepoStatus::gather(clean)),
        vec![
            "GitEHR Repository Status",
            "========================",
            "",
            "Encryption: Not encrypted",
            "",
            "Journal entries: 0",
            "State files: None",
            "",
            "Working directory clean (no uncommitted changes)",
        ]
    );
}

#[test]
fn test_encrypt_creates_marker_file() {
    let marker = encrypt_repository(true, false, None, &noon()).unwrap();
    assert_eq!(marker.path, ".gitehr/ENCRYPTED");
}

#[test]
fn test_encrypt_marker_contains_timestamp() {
    let content = encrypt_repository(true, false, None, &noon()).unwrap().content;
    assert!(content.contains("encrypted_at="), "Should contain encrypted_at timestamp");
    assert!(content.contains("T"), "Should be ISO 8601 format");
    assert!(content.contains("Z"), "Should be in UTC");
    assert_eq!(content, "encrypted_at=2025-06-01T12:00:00Z\nkey_source=local\n");
}

#[test]
fn test_encrypt_marker_contains_key_source() {
    let content =
        encrypt_repository(true, false, Some("azure-keyvault"), &noon()).unwrap().content;
    assert!(content.contains("key_source=azure-keyvault"), "Should contain key_source");
}

#[test]
fn test_encrypt_marker_default_key_source() {
    let content = encrypt_repository(true, false, None, &noon()).unwrap().content;
    assert!(content.contains("key_source=local"), "Should default to local key source");
}

#[test]
fn test_encrypt_fails_if_already_encrypted() {
    let result = encrypt_repository(true, true, None, &noon());
    assert!(result.is_err(), "Should fail if already encrypted");
    assert_eq!(result.unwrap_err(), "Repository is already encrypted.");
}

#[test]
fn test_decrypt_removes_marker_file() {
    assert_eq!(decrypt_repository(true, true).unwrap(), ".gitehr/ENCRYPTED");
}

#[test]
fn test_decrypt_fails_if_not_encrypted() {
    let result = decrypt_repository(true, false);
    assert!(result.is_err(), "Should fail if not encrypted");
    assert_eq!(result.unwrap_err(), "Repository is not encrypted.");
}

#[test]
fn test_encrypt_decrypt_roundtrip() {
    let marker = encrypt_repository(true, false, None, &noon()).unwrap();
    let removed = decrypt_repository(true, true).unwrap();
    assert_eq!(marker.path, removed);
}

#[test]
fn test_encrypt_without_gitehr_fails() {
    let outside = "Not a GitEHR repository (or not in the repository root).";
    assert_eq!(encrypt_repository(false, false, None, &noon()).unwrap_err(), outside);
    assert_eq!(encrypt_repository(false, true, None, &noon()).unwrap_err(), outside);
}

#[test]
fn test_decrypt_without_gitehr_fails() {
    let outside = "Not a GitEHR repository (or not in the repository root).";
    assert_eq!(decrypt_repository(false, true).unwrap_err(), outside);
}

#[test]
fn test_create_transport_archive() {
    let plan = create_transport_archive(true, Some("test-archive.tar.gz"), &noon()).unwrap();
    assert_eq!(plan.output, "test-archive.tar.gz");
    assert_eq!(plan.dirs, vec!["journal", "state", "imaging", "documents", ".gitehr"]);
}

#[test]
fn test_create_transport_archive_with_default_name() {
    let plan = create_transport_archive(true, None, &noon()).unwrap();
    assert!(plan.output.starts_with("gitehr-transport-"));
    assert!(plan.output.ends_with(".tar.gz"));
    assert_eq!(plan.output, "gitehr-transport-20250601-120000.tar.gz");
}

#[test]
fn test_create_archive_with_empty_directories() {
    let plan = create_transport_archive(true, Some("empty-archive.tar.gz"), &noon()).unwrap();
    assert_eq!(plan.output, "empty-archive.tar.gz");
    assert_eq!(extract_transport_archive(Some("/tmp/out")), "/tmp/out");
}

#[test]
fn test_extract_archive_to_default_directory() {
    assert_eq!(extract_transport_archive(None), ".");
}

#[test]
fn test_create_archive_fails_without_gitehr() {
    let result = create_transport_archive(false, Some("x.tar.gz"), &noon());
    assert_eq!(
        result.unwrap_err(),
        "Not a GitEHR repository (or not in the repository root)."
    );
}

#[test]
fn test_upgrade_repository_updates_version() {
    let plan = upgrade_repository(true, Some("0.0.1"), "0.1.5").unwrap().unwrap();
    assert_eq!(plan.version_file.path, ".gitehr/GITEHR_VERSION");
    assert_eq!(plan.version_file.content, "0.1.5");
}

#[test]
fn test_upgrade_repository_journal_entry_contains_version_info() {
    let plan = upgrade_repository(true, Some("0.0.1"), "0.1.5").unwrap().unwrap();
    assert_eq!(plan.message, "Repository upgraded from 0.0.1 to 0.1.5");
}

#[test]
fn test_upgrade_handles_missing_current_version() {
    let plan = upgrade_repository(true, None, "0.1.5").unwrap().unwrap();
    assert_eq!(plan.message, "Repository upgraded from unknown to 0.1.5");
    assert_eq!(get_current_version(None), None);
    assert_eq!(get_current_version(Some(" 0.1.5\n")), Some("0.1.5".to_string()));
}

#[test]
fn test_upgrade_repository_fails_without_gitehr() {
    let result = upgrade_repository(false, Some("0.0.1"), "0.1.5");
    assert!(result.is_err(), "Should fail without .gitehr directory");
}

#[test]
fn test_upgrade_repository_already_latest() {
    let result = upgrade_repository(true, Some("0.1.5"), "0.1.5").unwrap();
    assert!(result.is_none(), "Should succeed even if already latest");
}

#[test]
fn test_upgrade_binary_fails_without_gitehr() {
    let result = upgrade_binary(false, "0.1.5");
    assert!(result.is_err(), "Should fail without .gitehr directory");
}

#[test]
fn test_upgrade_binary_creates_bundled_binary() {
    let write = upgrade_binary(true, "0.1.5");
    assert!(write.is_ok(), "The upgrade should go ahead inside a repository");
}

#[test]
fn test_upgrade_binary_updates_version_file() {
    let write = upgrade_binary(true, "0.1.5").unwrap();
    assert_eq!(write.path, ".gitehr/GITEHR_VERSION");
    assert_eq!(write.content, "0.1.5");
}

#[test]
fn configuration_file() {
    assert_eq!(ensure_config(Some("repo_id = 1\ncreated_at = 2\n"), "id", "now"), None);
    let fresh = ensure_config(None, "1234", "2025-06-01T12:00:00+00:00").unwrap();
    assert!(fresh.starts_with("repo_id = \"1234\"\ncreated_at = \"2025-06-01T12:00:00+00:00\"\ntype = \"organisation\"\n\n[journal]\nenabled = true\n"));
    assert!(fresh.ends_with("[state]\nenabled = true\n\nWelcome to GitEHR! Welcome to the future!\n"));
    assert_eq!(ensure_config(Some("repo_id = 1\n"), "1234", "t"), ensure_config(None, "1234", "t"));
    assert_eq!(ensure_config(Some(fresh.as_str()), "other", "t"), None);
    assert_eq!(
        init_message("gitehr_fs", "/work/.git/"),
        "Initialized GitEHR repository at 'gitehr_fs' (Git dir: '/work/.git/')"
    );
    assert_eq!(find_gui_binary(true, Some("/usr/bin/gitehr-gui")).as_deref(), Some(".gitehr/gitehr-gui"));
    assert_eq!(find_gui_binary(false, Some("/usr/bin/gitehr-gui")).as_deref(), Some("/usr/bin/gitehr-gui"));
    assert_eq!(find_gui_binary(false, None), None);
}

#[test]
fn git_commands_and_outcomes() {
    assert_eq!(git_init(), vec!["init"]);
    assert_eq!(git_add("journal/a.md"), vec!["add", "journal/a.md"]);
    assert_eq!(git_commit("first"), vec!["commit", "-m", "first"]);
    assert_eq!(git_version_args(), vec!["--version"]);
    let ok = GitRun::Exited {
        success: true,
        stdout: "git version 2.43.0\n".to_string(),
        stderr: String::new(),
    };
    let bad = GitRun::Exited {
        success: false,
        stdout: "git version 2.43.0\n".to_string(),
        stderr: "  fatal: not a git repository\n".to_string(),
    };
    assert!(run_git_command(&ok).is_ok());
    assert_eq!(
        run_git_command(&bad).unwrap_err(),
        "Git command failed: fatal: not a git repository"
    );
    assert_eq!(
        run_git_command(&GitRun::NotFound).unwrap_err(),
        "Git binary not found. Please install git to use this feature."
    );
    assert_eq!(
        run_git_command(&GitRun::SpawnFailed("denied".to_string())).unwrap_err(),
        "Failed to execute git command: denied"
    );
    assert_eq!(get_git_version(&ok).as_deref(), Some("git version 2.43.0"));
    assert_eq!(get_git_version(&bad), None);
    assert_eq!(get_git_version(&GitRun::NotFound), None);
}

#[test]
fn objects_of_the_store() {
    assert_eq!(object_path("abcdef"), ".gitehr/objects/ab/cdef");
    assert_eq!(object_path_of("ab").as_deref(), Some(".gitehr/objects/ab/"));
    assert_eq!(object_path_of("a"), None);
    assert_eq!(blob_header(0), "blob 0");
    assert_eq!(blob_header(1024), "blob 1024");
    assert_eq!(size_of_text("0"), Some(0));
    assert_eq!(size_of_text("+17"), Some(17));
    assert_eq!(size_of_text("007"), Some(7));
    assert_eq!(size_of_text(""), None);
    assert_eq!(size_of_text("+"), None);
    assert_eq!(size_of_text("-1"), None);
    assert_eq!(size_of_text("1 "), None);
    assert_eq!(size_of_text("12a"), None);
    assert_eq!(size_of_text(&usize::MAX.to_string()), Some(usize::MAX));
    assert_eq!(size_of_text(&format!("{}0", usize::MAX)), None);
    assert_eq!(size_of_text("18446744073709551616"), "18446744073709551616".parse::<usize>().ok());
    assert!(matches!(parse_object_header("blob 12"), Ok(12)));
    assert!(matches!(parse_object_header("blob"), Err(HeaderError::NoKind)));
    assert!(matches!(parse_object_header("tree 12"), Err(HeaderError::UnknownKind)));
    assert!(matches!(parse_object_header("blob twelve"), Err(HeaderError::BadSize)));
    assert!(matches!(parse_object_header("blob 1 2"), Err(HeaderError::BadSize)));
    assert_eq!(
        HeaderError::NoKind.message("blob"),
        ".gitehr/object did not start with a known type: 'blob'"
    );
    assert_eq!(
        HeaderError::UnknownKind.message("tree 1"),
        ".gitehr/object did not start with an implemented type: 'tree 1'"
    );
    assert_eq!(HeaderError::BadSize.message("blob x"), "invalid blob size");
}

#[test]
fn error_messages() {
    let fs = FsError::CreateDir { path: "a/b".to_string(), reason: "denied".to_string() };
    assert_eq!(fs.message(), "failed to create directory a/b");
    let read = ConfigError::Read { path: "c.toml".to_string(), reason: String::new() };
    assert_eq!(read.message(), "failed to read config at c.toml");
    let write = ConfigError::Write { path: "c.toml".to_string(), reason: String::new() };
    assert_eq!(write.message(), "failed to write config at c.toml");
    let dir = ConfigError::CreateDir { path: "d".to_string(), reason: String::new() };
    assert_eq!(dir.message(), "failed to create directory d for config");
    assert_eq!(RepoError::Init(String::new()).message(), "failed to initialize git repository");
    assert_eq!(RepoError::Discover(String::new()).message(), "failed to discover git repository");
    assert_eq!(GitehrError::Fs(fs).message(), "failed to create directory a/b");
    assert_eq!(GitehrError::Other("x".to_string()).message(), "x");
    assert_eq!(
        GitehrError::Journal(JournalError::MissingAuthor).message(),
        "author id and name are required"
    );
    let missing = JournalError::MissingCorrectionTarget { correction_of: "c9".to_string() };
    assert_eq!(missing.message(), "correction target 'c9' does not exist");
    let duplicate = JournalError::DuplicateEntry { filename: "f.md".to_string() };
    assert_eq!(duplicate.message(), "journal entry f.md exists already");
    let invalid = JournalError::InvalidHeader { reason: "why".to_string() };
    assert_eq!(invalid.message(), "invalid journal header: why");
}

fn stored(name: &str, event: &str, body: &str) -> StoredEntry {
    let content = format!(
        "---\ngitehr_event_id: {}\ngitehr_patient_id: p\nrecorded_at: 2025-06-01T12:00:00Z\nauthor:\n  id: a1\n  name: Dr. A\n---\n\n{}",
        event, body
    );
    StoredEntry { filename: name.to_string(), content }
}

#[test]
fn what_is_shown_of_entries() {
    assert_eq!(preview_of("a\nb"), "a b");
    assert_eq!(preview_of(&"x".repeat(300)), "x".repeat(200));
    assert_eq!(preview_of(""), "");
    assert!(looks_like_entry("2025-06-01T12-00-00Z--c1.md"));
    assert!(!looks_like_entry("notes.md"));
    assert!(!looks_like_entry("T.md"));
    assert!(!looks_like_entry("2025-06-01T12-00-00Z--c1.txt"));

    let info = entry_info(&stored("2025-06-01T12-00-00Z--c1.md", "c1", "\n  Hello\nthere \n")).unwrap();
    assert_eq!(info.filename, "2025-06-01T12-00-00Z--c1.md");
    assert_eq!(info.timestamp, "2025-06-01T12:00:00Z");
    assert_eq!(info.author.as_deref(), Some("Dr. A"));
    assert_eq!(info.parent_entry, None);
    assert_eq!(info.content_preview, "Hello there");
    assert!(entry_info(&StoredEntry { filename: "x".to_string(), content: "---\na: b\n".to_string() })
        .is_none());
    assert!(entry_info(&StoredEntry { filename: "x".to_string(), content: "---\na: b\n---\n".to_string() })
        .is_none());
}

#[test]
fn pages_of_entries() {
    let mut journal = Journal::new();
    for i in 1..=5 {
        let name = format!("2025-06-01T12-00-0{}Z--c{}.md", i, i);
        assert!(journal.insert_entry("p", stored(&name, &format!("c{}", i), &format!("n{}", i))));
    }
    assert!(journal.insert_entry("p", stored("notes.md", "x", "skipped by name")));
    assert!(journal.insert_entry(
        "p",
        StoredEntry { filename: "2025-06-01T12-00-03Z--broken.md".to_string(), content: "?".to_string() }
    ));
    let previews = |limit, offset, reverse| -> Vec<String> {
        get_journal_entries(&journal, "p", limit, offset, reverse)
            .into_iter()
            .map(|i| i.content_preview)
            .collect()
    };
    assert_eq!(previews(None, None, None), vec!["n1", "n2", "n3", "n4", "n5"]);
    assert_eq!(previews(None, None, Some(true)), vec!["n5", "n4", "n3", "n2", "n1"]);
    assert_eq!(previews(Some(2), None, None), vec!["n1", "n2"]);
    assert_eq!(previews(Some(2), Some(2), None), vec!["n3"]);
    assert_eq!(previews(Some(3), Some(2), None), vec!["n3", "n4"]);
    assert_eq!(previews(Some(2), Some(1), Some(true)), vec!["n4", "n3"]);
    assert_eq!(previews(Some(2), Some(2), Some(true)), vec!["n3"]);
    assert_eq!(previews(Some(0), None, None), Vec::<String>::new());
    assert_eq!(previews(None, Some(9), None), Vec::<String>::new());
    assert_eq!(previews(Some(usize::MAX), Some(5), Some(false)), vec!["n5"]);
    assert!(get_journal_entries(&journal, "q", None, None, None).is_empty());
}

#[test]
fn what_is_shown_of_the_rest() {
    let files = vec![state("a", "1"), state("b", "2")];
    let shown = get_state_files(&files);
    assert_eq!(shown.len(), 2);
    assert_eq!((shown[1].name.as_str(), shown[1].content.as_str()), ("b", "2"));
    assert_eq!(shown[1].last_modified.as_deref(), Some("2025-06-01T12:00:00Z"));

    let mut config = gitehr::contributor::ContributorConfig::new();
    gitehr::contributor::add_contributor(
        &mut config, "a", "Ann", Some("Nurse"), Some("ann@x"), Some("key"), &noon(),
    )
    .unwrap();
    let shown = get_contributors(Some(&config));
    assert_eq!(shown.len(), 1);
    assert_eq!((shown[0].id.as_str(), shown[0].name.as_str()), ("a", "Ann"));
    assert_eq!(shown[0].role.as_deref(), Some("Nurse"));
    assert_eq!(shown[0].email.as_deref(), Some("ann@x"));
    assert!(shown[0].enabled && !shown[0].active);
    assert!(get_contributors(None).is_empty());
    assert_eq!(contributor_info(&config.contributors[0]).id, "a");

    let status = get_status(RepoStatus::gather(facts()));
    assert!(status.is_gitehr_repo && status.is_encrypted);
    assert_eq!(status.journal_entry_count, 2);
    assert_eq!(status.state_files, vec!["allergies.md", "meds.txt"]);
    assert_eq!(status.gitehr_version.as_deref(), Some("0.1.0\n"));
}
