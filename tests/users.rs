use ftp_suite::users::UserDb;

#[test]
fn alice_scenario() {
    let mut db = UserDb::new();
    db.add_user("alice", "s3cr3t").unwrap();
    assert!(db.verify("alice", "s3cr3t"));
    assert!(!db.verify("alice", "wrong"));
    assert!(!db.verify("bob", "s3cr3t"));
}

#[test]
fn appended_character_is_rejected() {
    let mut db = UserDb::new();
    db.add_user("carol", "pa55word").unwrap();
    assert!(db.verify("carol", "pa55word"));
    assert!(!db.verify("carol", "pa55wordx"));
}

#[test]
fn unknown_user_on_empty_store() {
    let db = UserDb::new();
    assert!(!db.verify("nobody", ""));
    assert!(!db.verify("", "anything"));
}

#[test]
fn usernames_are_case_sensitive() {
    let mut db = UserDb::new();
    db.add_user("Dave", "pw").unwrap();
    assert!(db.verify("Dave", "pw"));
    assert!(!db.verify("dave", "pw"));
}

#[test]
fn stored_hash_is_checked() {
    let mut db = UserDb::new();
    db.insert_hash("erin", "not a bcrypt hash".to_string());
    assert!(!db.verify("erin", "not a bcrypt hash"));
    assert!(!db.verify("erin", ""));
}

#[test]
fn re_adding_replaces_the_password() {
    let mut db = UserDb::new();
    db.add_user("frank", "old").unwrap();
    db.add_user("frank", "new").unwrap();
    assert!(db.verify("frank", "new"));
    assert!(!db.verify("frank", "old"));
}
