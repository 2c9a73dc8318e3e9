use ssh_key_store::{
    get_ssh_keys, key_info, public_key_stem, public_keys_in_listing, select_public_keys, KeyInfo,
    KeyInfoReport, StoreError, ToolOutcome,
};

fn names(v: &[&str]) -> Vec<String> {
    v.iter().map(|s| s.to_string()).collect()
}

#[test]
fn lists_only_public_key_files() {
    let listing = names(&[
        "id_rsa",
        "id_rsa.pub",
        "config",
        "known_hosts",
        "id_ed25519.pub",
        "authorized_keys",
    ]);
    let found = select_public_keys(&listing);
    assert_eq!(found.len(), 2);
    assert_eq!(found[0].file_name, "id_rsa.pub");
    assert_eq!(found[0].stem, "id_rsa");
    assert_eq!(found[1].file_name, "id_ed25519.pub");
    assert_eq!(found[1].stem, "id_ed25519");
}

#[test]
fn other_files_do_not_change_the_count() {
    let few = names(&["a.pub", "b.pub", "c.pub"]);
    let many = names(&["x", "a.pub", "y.txt", "b.pub", "z.pub.bak", "c.pub", "w"]);
    assert_eq!(select_public_keys(&few).len(), 3);
    assert_eq!(select_public_keys(&many).len(), 3);
    assert_eq!(select_public_keys(&names(&["config", "known_hosts"])).len(), 0);
    assert_eq!(select_public_keys(&Vec::new()).len(), 0);
}

#[test]
fn duplicate_stems_are_kept() {
    let found = select_public_keys(&names(&["k.pub", "k.pub"]));
    assert_eq!(found.len(), 2);
    assert_eq!(found[1].stem, "k");
}

#[test]
fn extension_must_be_exactly_pub() {
    assert_eq!(public_key_stem("id_rsa.pub"), Some("id_rsa".to_string()));
    assert_eq!(public_key_stem(".pub"), None);
    assert_eq!(public_key_stem("..pub"), Some(".".to_string()));
    assert_eq!(public_key_stem("x.pub"), Some("x".to_string()));
    assert_eq!(public_key_stem("a.b.pub"), Some("a.b".to_string()));
    assert_eq!(public_key_stem("id_rsa.PUB"), None);
    assert_eq!(public_key_stem("id_rsa.pubx"), None);
    assert_eq!(public_key_stem("pub"), None);
    assert_eq!(public_key_stem("idpub"), None);
}

#[test]
fn unreadable_directory_is_an_error() {
    match public_keys_in_listing(Err("/home/u/.ssh".to_string())) {
        Err(StoreError::DirectoryUnreadable(p)) => assert_eq!(p, "/home/u/.ssh"),
        _ => panic!("an unreadable directory must be reported"),
    }
    let ok = public_keys_in_listing(Ok(names(&["a.pub", "a"]))).ok().unwrap();
    assert_eq!(ok.len(), 1);
}

#[test]
fn store_error_messages() {
    assert_eq!(StoreError::NoHomeDirectory.message(), "Could not find home directory");
    assert_eq!(
        StoreError::DirectoryUnreadable("/h/.ssh".to_string()).message(),
        "Could not read directory: /h/.ssh"
    );
}

#[test]
fn key_info_texts() {
    let ok = key_info("/h/.ssh/a.pub", &ToolOutcome::Succeeded("256 SHA256:xyz a (ED25519)\n".to_string()));
    assert!(matches!(ok, KeyInfo::Metadata(_)));
    assert_eq!(ok.text(), "256 SHA256:xyz a (ED25519)\n");
    let failed = key_info("/h/.ssh/b.pub", &ToolOutcome::Failed("not a key".to_string()));
    assert!(matches!(failed, KeyInfo::Failure(_)));
    assert_eq!(failed.text(), "Error for /h/.ssh/b.pub: not a key");
    let missing = key_info("/h/.ssh/c.pub", &ToolOutcome::Unavailable("no such file".to_string()));
    assert_eq!(missing.text(), "Failed to run ssh-keygen for /h/.ssh/c.pub: no such file");
}

#[test]
fn one_failure_keeps_the_other_entries() {
    let reports = vec![
        KeyInfoReport {
            stem: "a".to_string(),
            path: "/h/.ssh/a.pub".to_string(),
            outcome: ToolOutcome::Succeeded("info a".to_string()),
        },
        KeyInfoReport {
            stem: "b".to_string(),
            path: "/h/.ssh/b.pub".to_string(),
            outcome: ToolOutcome::Failed("bad".to_string()),
        },
        KeyInfoReport {
            stem: "c".to_string(),
            path: "/h/.ssh/c.pub".to_string(),
            outcome: ToolOutcome::Succeeded("info c".to_string()),
        },
    ];
    let entries = get_ssh_keys(&reports);
    assert_eq!(entries.len(), 3);
    assert_eq!(entries[0].filename, "a");
    assert_eq!(entries[0].info.text(), "info a");
    assert_eq!(entries[1].filename, "b");
    assert_eq!(entries[1].info.text(), "Error for /h/.ssh/b.pub: bad");
    assert!(matches!(entries[1].info, KeyInfo::Failure(_)));
    assert_eq!(entries[2].filename, "c");
    assert_eq!(entries[2].info.text(), "info c");
    assert!(get_ssh_keys(&Vec::new()).is_empty());
}
