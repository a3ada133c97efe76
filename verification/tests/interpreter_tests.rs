use lildb::configuration::Configuration;
use lildb::database_manager::Database;
use lildb::session::{session_step, should_commit};
use lildb::store::{CollDir, DbDir, Store};

/// Runs one command the way the server does: snapshot, execute, apply the
/// directory operations to the (model) store, commit the new state if it
/// differs. Returns the reply text.
fn run(db: &mut Database, store: &mut Store, cmd: &str) -> String {
    let (output, new_db, ops) = session_step(db, store, cmd);
    for op in &ops {
        if !store.apply(op) {
            return String::from("Error executing command: filesystem operation failed\n");
        }
    }
    if should_commit(db, &new_db) {
        *db = new_db;
    }
    output
}

fn fresh_db() -> Database {
    Database::new(
        String::new(),
        String::new(),
        Vec::new(),
        0,
        Configuration::default(),
    )
}

fn empty_store() -> Store {
    Store { dbs: Vec::new() }
}

#[test]
fn create_db_then_show_dbs_lists_it_once() {
    let mut db = fresh_db();
    let mut store = empty_store();
    assert_eq!(run(&mut db, &mut store, "create db shop"), "Created database \"shop\"");
    let listing = run(&mut db, &mut store, "show dbs");
    assert_eq!(listing, "shop\n");
    assert_eq!(listing.matches("shop").count(), 1);
}

#[test]
fn create_db_twice_reports_already_exists_and_leaves_the_tree_alone() {
    let mut db = fresh_db();
    let mut store = empty_store();
    run(&mut db, &mut store, "create db shop");
    assert_eq!(store.dbs.len(), 1);
    let second = run(&mut db, &mut store, "create db shop");
    assert_eq!(second, "Error: database \"shop\" already exists");
    assert_eq!(store.dbs.len(), 1);
    assert_eq!(store.dbs[0].name, "shop");
    assert!(store.dbs[0].colls.is_empty());
}

#[test]
fn use_missing_db_reports_not_found_and_keeps_state() {
    let mut db = fresh_db();
    let mut store = empty_store();
    run(&mut db, &mut store, "create db shop");
    run(&mut db, &mut store, "use shop");
    assert_eq!(db.name, "shop");
    let before = db.clone();
    assert_eq!(run(&mut db, &mut store, "use warehouse"), "Error: database not found");
    assert_eq!(db, before);
    assert_eq!(db.name, "shop");
}

#[test]
fn drop_db_clears_the_whole_session_context() {
    let mut db = fresh_db();
    let mut store = empty_store();
    run(&mut db, &mut store, "create db shop");
    run(&mut db, &mut store, "use shop");
    run(&mut db, &mut store, "create collection orders");
    assert_eq!(db.name, "shop");
    assert_eq!(db.collections.len(), 1);
    assert_eq!(run(&mut db, &mut store, "drop db shop"), "Dropped database \"shop\"");
    assert_eq!(db.name, "");
    assert_eq!(db.path, "");
    assert_eq!(db.current_collection, 0);
    assert!(db.collections.is_empty());
    assert!(!store.contains_db("shop"));
}

#[test]
fn drop_missing_db_fails_the_operation_and_commits_nothing() {
    let mut db = fresh_db();
    let mut store = empty_store();
    run(&mut db, &mut store, "create db shop");
    run(&mut db, &mut store, "use shop");
    let reply = run(&mut db, &mut store, "drop db warehouse");
    assert_eq!(reply, "Error executing command: filesystem operation failed\n");
    // The failed operation reaches the store first, so the session state
    // was not committed: the selection survives.
    assert_eq!(db.name, "shop");
    assert!(store.contains_db("shop"));
}

#[test]
fn round_trip_collection_is_discoverable_after_rescan() {
    let mut db = fresh_db();
    let mut store = empty_store();
    run(&mut db, &mut store, "create db a");
    run(&mut db, &mut store, "use a");
    run(&mut db, &mut store, "create collection c");
    run(&mut db, &mut store, "use a");
    let listing = run(&mut db, &mut store, "show a");
    assert_eq!(listing, "c\n");
}

#[test]
fn empty_collection_directory_is_listed_but_not_rebuilt() {
    let mut db = fresh_db();
    let mut store = empty_store();
    store.dbs.push(DbDir {
        name: String::from("d1"),
        colls: vec![
            CollDir { name: String::from("full"), files: vec![String::from("x.doc")] },
            CollDir { name: String::from("empty"), files: vec![] },
        ],
    });
    run(&mut db, &mut store, "use d1");
    // The fileless directory yields no in-memory collection entry...
    assert_eq!(db.collections.len(), 1);
    assert_eq!(db.collections[0].name, "full");
    // ...but SHOW lists every collection directory.
    assert_eq!(run(&mut db, &mut store, "show d1"), "full\n\rempty\n");
}

#[test]
fn use_rebuilds_documents_with_stripped_names_and_full_paths() {
    let mut db = fresh_db();
    let mut store = empty_store();
    store.dbs.push(DbDir {
        name: String::from("d1"),
        colls: vec![CollDir {
            name: String::from("c1"),
            files: vec![
                String::from("a.txt"),
                String::from("b.tar.gz"),
                String::from("noext"),
                String::from(".hidden"),
            ],
        }],
    });
    assert_eq!(run(&mut db, &mut store, "use d1"), "Using database: d1");
    assert_eq!(db.path, "./dbstore/d1");
    assert_eq!(db.collections.len(), 1);
    let c = &db.collections[0];
    assert_eq!(c.name, "c1");
    assert_eq!(c.path, "./dbstore/d1/c1");
    assert!(!c.created_at.is_empty());
    let names: Vec<&str> = c.documents.iter().map(|d| d.name.as_str()).collect();
    assert_eq!(names, vec!["a", "b", "noext", ""]);
    assert_eq!(c.documents[0].path, "./dbstore/d1/c1/a.txt");
    assert_eq!(c.documents[1].path, "./dbstore/d1/c1/b.tar.gz");
}

#[test]
fn show_dbs_on_an_empty_store() {
    let mut db = fresh_db();
    let mut store = empty_store();
    assert_eq!(run(&mut db, &mut store, "show dbs"), "No databases found\n");
}

#[test]
fn show_missing_db_reports_not_found() {
    let mut db = fresh_db();
    let mut store = empty_store();
    assert_eq!(run(&mut db, &mut store, "show warehouse"), "Error: database not found");
}

#[test]
fn show_lists_databases_in_directory_order() {
    let mut db = fresh_db();
    let mut store = empty_store();
    run(&mut db, &mut store, "create db alpha");
    run(&mut db, &mut store, "create db beta");
    assert_eq!(run(&mut db, &mut store, "show dbs"), "alpha\n\rbeta\n");
}

#[test]
fn create_without_qualifier_names_the_accepted_ones() {
    let mut db = fresh_db();
    let mut store = empty_store();
    assert_eq!(
        run(&mut db, &mut store, "create"),
        "You need to specify either \"db\" or \"collection\" before \"create\""
    );
    assert_eq!(
        run(&mut db, &mut store, "create shop"),
        "You need to specify either \"db\" or \"collection\" before \"shop\""
    );
}

#[test]
fn syntax_errors_for_missing_names() {
    let mut db = fresh_db();
    let mut store = empty_store();
    assert_eq!(run(&mut db, &mut store, "create db"), "Error: invalid syntax\n\r");
    assert_eq!(run(&mut db, &mut store, "drop db"), "Error: invalid syntax\n\r");
    assert_eq!(run(&mut db, &mut store, "use"), "Error: invalid syntax\n\r");
    assert_eq!(run(&mut db, &mut store, "show"), "Error: invalid syntax\n\r");
    assert_eq!(run(&mut db, &mut store, "drop"), "Error: invalid syntax\n\r");
}

#[test]
fn collection_commands_need_a_selected_database() {
    let mut db = fresh_db();
    let mut store = empty_store();
    let msg = "Error: no database provided. Select one with \"use <name>\" ";
    assert_eq!(run(&mut db, &mut store, "create collection orders"), msg);
    assert_eq!(run(&mut db, &mut store, "drop collection orders"), msg);
}

#[test]
fn creating_the_same_collection_twice_keeps_one_entry() {
    let mut db = fresh_db();
    let mut store = empty_store();
    run(&mut db, &mut store, "create db shop");
    run(&mut db, &mut store, "use shop");
    run(&mut db, &mut store, "create collection orders");
    run(&mut db, &mut store, "create collection orders");
    assert_eq!(db.collections.len(), 1);
    assert_eq!(store.dbs[0].colls.len(), 1);
}

#[test]
fn reserved_commands_are_reported_unimplemented() {
    let mut db = fresh_db();
    let mut store = empty_store();
    assert_eq!(
        run(&mut db, &mut store, "insert"),
        "Error: command \"insert\" is not implemented"
    );
    assert_eq!(
        run(&mut db, &mut store, "update"),
        "Error: command \"update\" is not implemented"
    );
    assert_eq!(
        run(&mut db, &mut store, "delete"),
        "Error: command \"delete\" is not implemented"
    );
    assert_eq!(run(&mut db, &mut store, "find"), "Error: command \"find\" is not implemented");
}

#[test]
fn unknown_commands_are_echoed() {
    let mut db = fresh_db();
    let mut store = empty_store();
    assert_eq!(run(&mut db, &mut store, "frobnicate"), "Unknown command: frobnicate\n\r");
    assert_eq!(run(&mut db, &mut store, "list"), "Unknown command: list\n\r");
}

#[test]
fn example_scenario_stream() {
    let mut db = fresh_db();
    let mut store = empty_store();
    let inputs = [
        "create db shop",
        "use shop",
        "create collection orders",
        "show shop",
        "drop collection orders",
        "show shop",
    ];
    let outputs: Vec<String> = inputs.iter().map(|i| run(&mut db, &mut store, i)).collect();
    assert_eq!(outputs[0], "Created database \"shop\"");
    assert_eq!(outputs[1], "Using database: shop");
    assert_eq!(outputs[2], "Created collection \"orders\"");
    assert!(outputs[3].contains("orders"));
    assert_eq!(outputs[3], "orders\n");
    assert_eq!(outputs[4], "Dropped collection \"orders\"");
    assert_eq!(outputs[5], "No collections found\n");
}
