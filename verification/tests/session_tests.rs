use lildb::configuration::Configuration;
use lildb::database_manager::Database;
use lildb::session::{lex_input, session_step, should_commit, CmdError};
use lildb::store::{DbDir, Store};

fn fresh_db() -> Database {
    Database::new(
        String::new(),
        String::new(),
        Vec::new(),
        0,
        Configuration::default(),
    )
}

#[test]
fn empty_command_is_a_call_level_error() {
    let db = fresh_db();
    let store = Store { dbs: Vec::new() };
    let r = lex_input("", db, &store);
    assert!(matches!(r, Err(CmdError::EmptyCommand)));
}

#[test]
fn whitespace_only_command_is_a_call_level_error() {
    let db = fresh_db();
    let store = Store { dbs: Vec::new() };
    let r = lex_input("  \t \n ", db, &store);
    assert!(matches!(r, Err(CmdError::EmptyCommand)));
}

#[test]
fn session_step_turns_the_error_into_a_marked_reply() {
    let db = fresh_db();
    let store = Store { dbs: Vec::new() };
    let (output, new_db, ops) = session_step(&db, &store, "   ");
    assert_eq!(output, "Error executing command: empty command\n");
    assert!(ops.is_empty());
    assert_eq!(new_db, db);
}

#[test]
fn lex_input_returns_the_reply_and_the_mutated_state() {
    let db = fresh_db();
    let store = Store { dbs: vec![DbDir { name: String::from("a"), colls: vec![] }] };
    let (output, exit, new_db, ops) = lex_input("use a", db, &store).unwrap();
    assert_eq!(output, "Using database: a");
    assert!(!exit);
    assert_eq!(new_db.name, "a");
    assert!(ops.is_empty());
}

#[test]
fn should_commit_only_when_the_state_changed() {
    let db = fresh_db();
    let store = Store { dbs: vec![DbDir { name: String::from("a"), colls: vec![] }] };
    let (_, after_help, _) = session_step(&db, &store, "help");
    assert!(!should_commit(&db, &after_help));
    let (_, after_use, _) = session_step(&db, &store, "use a");
    assert!(should_commit(&db, &after_use));
}

#[test]
fn help_is_byte_identical_with_and_without_a_selected_database() {
    let db = fresh_db();
    let store = Store { dbs: vec![DbDir { name: String::from("a"), colls: vec![] }] };
    let (help_unselected, _, _) = session_step(&db, &store, "help");
    let (_, selected, _) = session_step(&db, &store, "use a");
    let (help_selected, _, _) = session_step(&selected, &store, "help");
    assert_eq!(help_unselected, help_selected);
    assert_eq!(
        help_unselected,
        "Commands:\n\r  CREATE DB <name>\n\r  CREATE COLLECTION <name>\n\r  DROP DB <name>\n\r  DROP COLLECTION <name>\n\r  USE <name>\n\r  SHOW DBS\n\r  SHOW <name>\n\r  HELP\n\r"
    );
}

#[test]
fn concurrent_sessions_lose_one_update_in_memory_but_not_on_disk() {
    // Both sessions snapshot the same shared state and the same store.
    let shared = fresh_db();
    let mut store = Store { dbs: vec![DbDir { name: String::from("a"), colls: vec![] }] };

    // Session 1: USE a, then CREATE COLLECTION c1 (store snapshot unchanged
    // by USE, which performs no directory operation).
    let (_, s1_db, _) = session_step(&shared, &store, "use a");
    let (_, s1_db, s1_ops) = session_step(&s1_db, &store, "create collection c1");

    // Session 2, from the same snapshots: USE a, then CREATE COLLECTION c2.
    let (_, s2_db, _) = session_step(&shared, &store, "use a");
    let (_, s2_db, s2_ops) = session_step(&s2_db, &store, "create collection c2");

    // Both sessions' directory operations land.
    for op in s1_ops.iter().chain(s2_ops.iter()) {
        assert!(store.apply(op));
    }

    // Last writer wins in memory: session 1 commits, then session 2
    // replaces the whole value, losing c1's in-memory entry.
    let mut committed = shared.clone();
    if should_commit(&committed, &s1_db) {
        committed = s1_db;
    }
    if should_commit(&committed, &s2_db) {
        committed = s2_db;
    }
    let names: Vec<&str> = committed.collections.iter().map(|c| c.name.as_str()).collect();
    assert!(names.contains(&"c2"));
    assert!(!names.contains(&"c1"));

    // The filesystem truth holds both collections, and a fresh rescan's
    // SHOW lists both.
    let dir_names: Vec<&str> = store.dbs[0].colls.iter().map(|c| c.name.as_str()).collect();
    assert!(dir_names.contains(&"c1"));
    assert!(dir_names.contains(&"c2"));
    let (_, rescanned, _) = session_step(&committed, &store, "use a");
    let (listing, _, _) = session_step(&rescanned, &store, "show a");
    assert!(listing.contains("c1"));
    assert!(listing.contains("c2"));
}

#[test]
fn placeholder_handlers_do_nothing() {
    let mut db = fresh_db();
    let tl = lildb::token_list::TokenList::new(lildb::lexer::tokenize("delete x"));
    let r = lildb::db_functions::f_delete(tl, &mut db);
    assert_eq!(r.unwrap(), "");
    let tl = lildb::token_list::TokenList::new(lildb::lexer::tokenize("use x"));
    let r = lildb::db_functions::f_use(tl, &mut db);
    assert_eq!(r.unwrap(), "");
    assert_eq!(db, fresh_db());
}

#[test]
fn store_apply_matches_real_directory_semantics() {
    let mut store = Store { dbs: Vec::new() };
    // Removing a missing directory fails and changes nothing.
    assert!(!store.apply(&lildb::store::FsOp::RemoveDbDir { db: String::from("a") }));
    assert!(store.dbs.is_empty());
    // Recursive creation makes parents as needed and is idempotent.
    assert!(store.apply(&lildb::store::FsOp::CreateCollectionDir {
        db: String::from("a"),
        collection: String::from("c"),
    }));
    assert_eq!(store.dbs.len(), 1);
    assert_eq!(store.dbs[0].colls.len(), 1);
    assert!(store.apply(&lildb::store::FsOp::CreateDbDir { db: String::from("a") }));
    assert_eq!(store.dbs.len(), 1);
    // Removing a missing collection fails; removing a present one works.
    assert!(!store.apply(&lildb::store::FsOp::RemoveCollectionDir {
        db: String::from("a"),
        collection: String::from("x"),
    }));
    assert!(store.apply(&lildb::store::FsOp::RemoveCollectionDir {
        db: String::from("a"),
        collection: String::from("c"),
    }));
    assert!(store.dbs[0].colls.is_empty());
    assert!(store.apply(&lildb::store::FsOp::RemoveDbDir { db: String::from("a") }));
    assert!(store.dbs.is_empty());
}
