use gitehr::contributor::{
    activate_contributor, add_contributor, base_user_id, current_author, deactivate_contributor,
    derive_user_id,
    disable_contributor, enable_contributor, get_current_contributor, list_contributors,
    require_repo, slugify, user_id_candidate, wants_keypair, ContributorConfig,
};
use gitehr::remote::{add_remote, list_remotes, remove_remote, RemoteConfig};
use gitehr::timestamp::Timestamp;

fn noon() -> Timestamp {
    Timestamp::new(2025, 6, 1, 12, 0, 0).unwrap()
}

fn with(ids: &[(&str, &str)]) -> ContributorConfig {
    let mut config = ContributorConfig::new();
    for (id, name) in ids {
        add_contributor(&mut config, id, name, None, None, None, &noon()).unwrap();
    }
    config
}

#[test]
fn test_add_contributor() {
    let mut config = ContributorConfig::new();
    add_contributor(
        &mut config,
        "doc001",
        "Dr. Smith",
        Some("Physician"),
        Some("smith@example.com"),
        None,
        &noon(),
    )
    .unwrap();
    assert_eq!(config.contributors.len(), 1);
    let c = &config.contributors[0];
    assert_eq!(c.id, "doc001");
    assert_eq!(c.name, "Dr. Smith");
    assert_eq!(c.role.as_deref(), Some("Physician"));
    assert_eq!(c.email.as_deref(), Some("smith@example.com"));
    assert!(c.enabled);
    assert!(!c.active);
}

#[test]
fn test_add_contributor_with_minimal_info() {
    let config = with(&[("nurse001", "Jane Doe")]);
    let c = &config.contributors[0];
    assert_eq!(c.name, "Jane Doe");
    assert!(c.role.is_none());
    assert!(c.email.is_none());
    assert!(c.public_key.is_none());
}

#[test]
fn test_add_duplicate_contributor_fails() {
    let mut config = with(&[("doc001", "Dr. Smith")]);
    let result =
        add_contributor(&mut config, "doc001", "Different Name", None, None, None, &noon());
    assert!(result.is_err(), "Adding duplicate contributor should fail");
    assert_eq!(result.unwrap_err(), "User 'doc001' already exists.");
    assert_eq!(config.contributors.len(), 1);
    assert_eq!(config.contributors[0].name, "Dr. Smith");
}

#[test]
fn test_enable_contributor() {
    let mut config = with(&[("doc001", "Dr. Smith")]);
    disable_contributor(&mut config, "doc001").unwrap();
    assert!(!config.contributors[0].enabled);
    enable_contributor(&mut config, "doc001").unwrap();
    assert!(config.contributors[0].enabled);
    assert_eq!(
        enable_contributor(&mut config, "nobody").unwrap_err(),
        "User 'nobody' not found."
    );
}

#[test]
fn test_disable_contributor() {
    let mut config = with(&[("doc001", "Dr. Smith")]);
    disable_contributor(&mut config, "doc001").unwrap();
    assert!(!config.contributors[0].enabled);
    assert!(!config.contributors[0].active);
    assert_eq!(
        disable_contributor(&mut config, "nobody").unwrap_err(),
        "User 'nobody' not found."
    );
}

#[test]
fn test_disable_deactivates_active_contributor() {
    let mut config = with(&[("doc001", "Dr. Smith")]);
    activate_contributor(&mut config, "doc001").unwrap();
    assert!(config.contributors[0].active);
    disable_contributor(&mut config, "doc001").unwrap();
    assert!(!config.contributors[0].active);
}

#[test]
fn test_activate_contributor() {
    let mut config = with(&[("doc001", "Dr. Smith")]);
    activate_contributor(&mut config, "doc001").unwrap();
    assert!(config.contributors[0].active);
    assert_eq!(config.current_contributor.as_deref(), Some("doc001"));
    assert_eq!(
        activate_contributor(&mut config, "nobody").unwrap_err(),
        "User 'nobody' not found."
    );
}

#[test]
fn test_activate_disabled_contributor_fails() {
    let mut config = with(&[("doc001", "Dr. Smith")]);
    disable_contributor(&mut config, "doc001").unwrap();
    let result = activate_contributor(&mut config, "doc001");
    assert!(result.is_err(), "Activating disabled contributor should fail");
    assert_eq!(result.unwrap_err(), "User 'doc001' is disabled. Enable it first.");
    assert!(config.current_contributor.is_none());
}

#[test]
fn test_activate_replaces_current_contributor() {
    let mut config = with(&[("doc001", "Dr. Smith"), ("doc002", "Dr. Jones")]);
    activate_contributor(&mut config, "doc001").unwrap();
    assert!(config.contributors[0].active);
    assert!(!config.contributors[1].active);
    activate_contributor(&mut config, "doc002").unwrap();
    assert!(!config.contributors[0].active);
    assert!(config.contributors[1].active);
    assert_eq!(config.current_contributor.as_deref(), Some("doc002"));
}

#[test]
fn test_deactivate_contributor() {
    let mut config = with(&[("doc001", "Dr. Smith")]);
    activate_contributor(&mut config, "doc001").unwrap();
    deactivate_contributor(&mut config);
    assert!(!config.contributors[0].active);
    assert!(config.current_contributor.is_none());
}

#[test]
fn test_get_current_contributor() {
    let mut config = with(&[("doc001", "Dr. Smith")]);
    let current = get_current_contributor(Some(&config));
    assert!(current.is_none(), "No active contributor initially");
    activate_contributor(&mut config, "doc001").unwrap();
    let current = get_current_contributor(Some(&config));
    assert_eq!(current, Some("doc001".to_string()));
    assert_eq!(get_current_contributor(None), None);
}

#[test]
fn test_contributor_has_timestamp() {
    let config = with(&[("doc001", "Dr. Smith")]);
    let time_str = &config.contributors[0].added_at;
    assert!(time_str.contains("T"), "Should be ISO 8601 format");
    assert!(time_str.contains("Z"), "Should be in UTC");
    assert_eq!(time_str, "2025-06-01T12:00:00Z");
}

#[test]
fn test_contributor_operations_fail_without_gitehr() {
    assert_eq!(
        require_repo(false).unwrap_err(),
        "Not a GitEHR repository (or not in the repository root)."
    );
    assert!(require_repo(true).is_ok());
}

#[test]
fn the_current_author_is_a_snapshot_of_the_current_contributor() {
    let mut config = ContributorConfig::new();
    add_contributor(&mut config, "a1", "Dr. A", Some("Physician"), None, None, &noon()).unwrap();
    add_contributor(&mut config, "b2", "Nurse B", None, None, None, &noon()).unwrap();
    assert!(current_author(&config).is_none());
    activate_contributor(&mut config, "b2").unwrap();
    let author = current_author(&config).unwrap();
    assert_eq!((author.id.as_str(), author.name.as_str()), ("b2", "Nurse B"));
    assert!(author.role.is_none());
    activate_contributor(&mut config, "a1").unwrap();
    let author = current_author(&config).unwrap();
    assert_eq!((author.id.as_str(), author.name.as_str()), ("a1", "Dr. A"));
    assert_eq!(author.role.as_deref(), Some("Physician"));
    config.current_contributor = Some("gone".to_string());
    assert!(current_author(&config).is_none());
    deactivate_contributor(&mut config);
    assert!(current_author(&config).is_none());
}

#[test]
fn contributors_are_listed_with_their_status() {
    assert_eq!(
        list_contributors(&ContributorConfig::new()),
        vec!["No users configured.", "Use 'gitehr user add <id> <name>' to add one."]
    );
    let mut config = ContributorConfig::new();
    add_contributor(&mut config, "a", "Ann", Some("Nurse"), None, None, &noon()).unwrap();
    add_contributor(&mut config, "b", "Bob", None, None, None, &noon()).unwrap();
    add_contributor(&mut config, "c", "Cy", None, None, None, &noon()).unwrap();
    activate_contributor(&mut config, "a").unwrap();
    disable_contributor(&mut config, "c").unwrap();
    assert_eq!(
        list_contributors(&config),
        vec![
            "Users:",
            "  a - Ann Nurse [active]",
            "  b - Bob  [enabled]",
            "  c - Cy  [disabled]",
        ]
    );
}

#[test]
fn slugs() {
    assert_eq!(slugify("Dr. Jane O'Neil"), "dr-jane-o-neil");
    assert_eq!(slugify("  --Hello,   World!!  "), "hello-world");
    assert_eq!(slugify("ABC123"), "abc123");
    assert_eq!(slugify("!!!"), "");
    assert_eq!(slugify(""), "");
    assert_eq!(slugify("é"), "");
    assert_eq!(slugify("a_b"), "a-b");
}

#[test]
fn user_ids() {
    assert_eq!(base_user_id("Jane Doe", "Jane.Doe@example.com"), "jane-doe");
    assert_eq!(base_user_id("Jane Doe", "@example.com"), "jane-doe");
    assert_eq!(base_user_id("Jane Doe", ""), "jane-doe");
    assert_eq!(base_user_id("???", "!!!@x"), "user");
    assert_eq!(base_user_id("Jane", "no-at-sign"), "no-at-sign");
    assert_eq!(user_id_candidate("jane", 0), "jane-0000");
    assert_eq!(user_id_candidate("jane", 0xbeef), "jane-beef");
    assert_eq!(user_id_candidate("jane", 0x00a9), "jane-00a9");
    assert_eq!(user_id_candidate("jane", u16::MAX), "jane-ffff");

    let config = with(&[("jane", "Jane"), ("jane-0001", "Jane again")]);
    assert_eq!(derive_user_id("Bob", "bob@x", &config, 7), Some("bob".to_string()));
    assert_eq!(derive_user_id("Jane", "jane@x", &config, 7), Some("jane-0007".to_string()));
    assert_eq!(derive_user_id("Jane", "jane@x", &config, 1), None);
}

#[test]
fn answers_to_the_offer_of_a_key_pair() {
    assert!(wants_keypair(""));
    assert!(wants_keypair("y"));
    assert!(wants_keypair("Y"));
    assert!(wants_keypair("yes"));
    assert!(wants_keypair("YeS"));
    assert!(!wants_keypair("n"));
    assert!(!wants_keypair("yes!"));
    assert!(!wants_keypair(" y"));
}

fn remotes(names: &[(&str, &str)]) -> RemoteConfig {
    let mut config = RemoteConfig::new();
    for (name, url) in names {
        add_remote(&mut config, name, url, &noon()).unwrap();
    }
    config
}

#[test]
fn test_add_remote() {
    let config = remotes(&[("origin", "https://example.com/repo.git")]);
    assert_eq!(config.remotes.len(), 1);
    assert_eq!(config.remotes[0].0, "origin");
    assert_eq!(config.remotes[0].1.url, "https://example.com/repo.git");
}

#[test]
fn test_add_multiple_remotes() {
    let config = remotes(&[
        ("origin", "https://example.com/repo.git"),
        ("backup", "https://backup.com/repo.git"),
        ("mirror", "https://mirror.com/repo.git"),
    ]);
    let names: Vec<&str> = config.remotes.iter().map(|r| r.0.as_str()).collect();
    assert_eq!(names, vec!["origin", "backup", "mirror"]);
}

#[test]
fn test_add_duplicate_remote_fails() {
    let mut config = remotes(&[("origin", "https://example.com/repo.git")]);
    let result = add_remote(&mut config, "origin", "https://different.com/repo.git", &noon());
    assert!(result.is_err(), "Adding duplicate remote should fail");
    assert_eq!(
        result.unwrap_err(),
        "Remote 'origin' already exists. Use 'gitehr remote remove origin' first."
    );
    assert_eq!(config.remotes[0].1.url, "https://example.com/repo.git");
}

#[test]
fn test_remove_remote() {
    let mut config = remotes(&[("origin", "https://a"), ("backup", "https://b")]);
    remove_remote(&mut config, "origin").unwrap();
    assert_eq!(config.remotes.len(), 1);
    assert_eq!(config.remotes[0].0, "backup");
}

#[test]
fn test_remove_nonexistent_remote_fails() {
    let mut config = RemoteConfig::new();
    let result = remove_remote(&mut config, "nonexistent");
    assert!(result.is_err(), "Removing nonexistent remote should fail");
    assert_eq!(result.unwrap_err(), "Remote 'nonexistent' does not exist.");
}

#[test]
fn test_remote_has_timestamp() {
    let config = remotes(&[("origin", "https://example.com/repo.git")]);
    let added_at = &config.remotes[0].1.added_at;
    assert!(added_at.contains("T"));
    assert!(added_at.contains("Z"));
    assert_eq!(added_at, "2025-06-01T12:00:00Z");
}

#[test]
fn test_remote_config_fails_without_gitehr() {
    assert!(require_repo(false).is_err());
}

#[test]
fn remotes_are_listed() {
    assert_eq!(
        list_remotes(&RemoteConfig::new()),
        vec!["No remotes configured.", "Use 'gitehr remote add <name> <url>' to add one."]
    );
    let config = remotes(&[("origin", "https://a"), ("backup", "https://b")]);
    assert_eq!(
        list_remotes(&config),
        vec!["Configured remotes:", "  origin -> https://a", "  backup -> https://b"]
    );
}
