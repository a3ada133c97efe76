//! The mathematical meaning of every command.
//!
//! [`spec_process`] is a functional interpreter: given the model of the
//! session state, the model of the store tree, the (already filtered)
//! token sequence and the timestamp to stamp new collections with, it says
//! exactly which state, output text and directory operations each command
//! produces. The executable interpreter is proved to return precisely this
//! function's result.

use crate::collection::CollectionV;
use crate::configuration::ConfigurationV;
use crate::document::DocumentV;
use crate::lexer::{TokenTypeV, TokenV};
use crate::store::{CollDirV, DbDirV, FsOpV, StoreV};
use crate::text::{spec_doc_name, spec_path2, spec_path3};
use crate::token_list::cur_ix;
use vstd::prelude::*;

verus! {

/// Model of the session state: the selected database (empty `name` when
/// none is selected), its collections, and the shared configuration.
#[verifier::ext_equal]
pub struct DatabaseV {
    pub name: Seq<char>,
    pub path: Seq<char>,
    pub collections: Seq<CollectionV>,
    pub current_collection: int,
    pub config: ConfigurationV,
}

/// Model of what one command execution yields: the text sent back to the
/// client, the (always false) exit flag, and the directory operations to
/// perform.
#[verifier::ext_equal]
pub struct OutcomeV {
    pub output: Seq<char>,
    pub exit: bool,
    pub ops: Seq<FsOpV>,
}

impl DatabaseV {
    /// The session-state invariant: the selected-collection index and the
    /// collection set are meaningful only while a database is selected; with
    /// no selection both are cleared.
    pub open spec fn wf(self) -> bool {
        self.name.len() == 0 ==> self.current_collection == 0 && self.collections.len() == 0
    }
}

/// An outcome with no exit request.
pub open spec fn out(output: Seq<char>, ops: Seq<FsOpV>) -> OutcomeV {
    OutcomeV { output, exit: false, ops }
}

/// The token a handler reads after advancing the cursor `k` steps from the
/// first token.
pub open spec fn t_at(toks: Seq<TokenV>, k: int) -> TokenV {
    toks[cur_ix(toks.len() as int, k)]
}

pub open spec fn msg_invalid_syntax() -> Seq<char> {
    "Error: invalid syntax\n\r"@
}

pub open spec fn msg_no_db_selected() -> Seq<char> {
    "Error: no database provided. Select one with \"use <name>\" "@
}

pub open spec fn msg_db_not_found() -> Seq<char> {
    "Error: database not found"@
}

pub open spec fn msg_created_db(name: Seq<char>) -> Seq<char> {
    "Created database \""@ + name + "\""@
}

pub open spec fn msg_created_collection(name: Seq<char>) -> Seq<char> {
    "Created collection \""@ + name + "\""@
}

pub open spec fn msg_already_exists(name: Seq<char>) -> Seq<char> {
    "Error: database \""@ + name + "\" already exists"@
}

pub open spec fn msg_specify(slice: Seq<char>) -> Seq<char> {
    "You need to specify either \"db\" or \"collection\" before \""@ + slice + "\""@
}

pub open spec fn msg_dropped_db(name: Seq<char>) -> Seq<char> {
    "Dropped database \""@ + name + "\""@
}

pub open spec fn msg_dropped_collection(name: Seq<char>) -> Seq<char> {
    "Dropped collection \""@ + name + "\""@
}

pub open spec fn msg_using(name: Seq<char>) -> Seq<char> {
    "Using database: "@ + name
}

pub open spec fn msg_unknown(slice: Seq<char>) -> Seq<char> {
    "Unknown command: "@ + slice + "\n\r"@
}

pub open spec fn msg_unimplemented(slice: Seq<char>) -> Seq<char> {
    "Error: command \""@ + slice + "\" is not implemented"@
}

pub open spec fn msg_no_dbs() -> Seq<char> {
    "No databases found\n\r"@
}

pub open spec fn msg_no_collections() -> Seq<char> {
    "No collections found\n\r"@
}

/// The static usage text `HELP` prints, identical in every session state.
pub open spec fn help_text() -> Seq<char> {
    "Commands:\n\r  CREATE DB <name>\n\r  CREATE COLLECTION <name>\n\r  DROP DB <name>\n\r  DROP COLLECTION <name>\n\r  USE <name>\n\r  SHOW DBS\n\r  SHOW <name>\n\r  HELP\n\r"@
}

/// Directory names joined as listing lines, each terminated by `\n\r`.
pub open spec fn join_lines(names: Seq<Seq<char>>) -> Seq<char>
    decreases names.len(),
{
    if names.len() == 0 {
        Seq::empty()
    } else {
        names[0] + "\n\r"@ + join_lines(names.drop_first())
    }
}

pub proof fn lemma_join_lines_push(names: Seq<Seq<char>>, x: Seq<char>)
    ensures
        join_lines(names.push(x)) == join_lines(names) + x + "\n\r"@,
    decreases names.len(),
{
    if names.len() == 0 {
        assert(names.push(x).drop_first() =~= Seq::<Seq<char>>::empty());
        assert(names.push(x)[0] == x);
        assert(join_lines(names.push(x)) == x + "\n\r"@ + join_lines(Seq::<Seq<char>>::empty()));
        assert(x + "\n\r"@ + Seq::<char>::empty() =~= join_lines(names) + x + "\n\r"@);
    } else {
        assert(names.push(x).drop_first() =~= names.drop_first().push(x));
        lemma_join_lines_push(names.drop_first(), x);
        assert(names.push(x)[0] == names[0]);
        assert(join_lines(names.push(x)) == names[0] + "\n\r"@ + (join_lines(names.drop_first()) + x
            + "\n\r"@));
        assert(names[0] + "\n\r"@ + (join_lines(names.drop_first()) + x + "\n\r"@) =~= (names[0]
            + "\n\r"@ + join_lines(names.drop_first())) + x + "\n\r"@);
    }
}

/// What a `SHOW` listing prints for the given names: the joined lines, or
/// the given placeholder when the joined text is empty, always with the
/// final character stripped.
pub open spec fn spec_listing(names: Seq<Seq<char>>, empty_msg: Seq<char>) -> Seq<char> {
    let j = join_lines(names);
    let t = if j.len() == 0 {
        empty_msg
    } else {
        j
    };
    t.take(t.len() as int - 1)
}

/// The documents rebuilt for one collection directory: one per file, named
/// by the filename up to its first `.`, at the file's path.
pub open spec fn spec_documents_of(files: Seq<Seq<char>>, coll_path: Seq<char>) -> Seq<DocumentV> {
    files.map_values(
        |f: Seq<char>| DocumentV { name: spec_doc_name(f), path: spec_path2(coll_path, f) },
    )
}

/// The collections rebuilt on `USE`, from directory index `i` on. A
/// collection directory with no files yields no collection entry: only
/// directories holding at least one file appear in the rebuilt state.
pub open spec fn spec_rebuild_from(
    store_path: Seq<char>,
    db_name: Seq<char>,
    colls: Seq<CollDirV>,
    i: int,
    now: Seq<char>,
) -> Seq<CollectionV>
    decreases colls.len() - i,
{
    if !(0 <= i < colls.len()) {
        Seq::empty()
    } else {
        let rest = spec_rebuild_from(store_path, db_name, colls, i + 1, now);
        let cd = colls[i];
        if cd.files.len() == 0 {
            rest
        } else {
            let cpath = spec_path3(store_path, db_name, cd.name);
            seq![
                CollectionV {
                    name: cd.name,
                    path: cpath,
                    created_at: now,
                    documents: spec_documents_of(cd.files, cpath),
                },
            ] + rest
        }
    }
}

/// All collections rebuilt for one database directory.
pub open spec fn spec_rebuild(store_path: Seq<char>, d: DbDirV, now: Seq<char>) -> Seq<
    CollectionV,
> {
    spec_rebuild_from(store_path, d.name, d.colls, 0, now)
}

/// First index `>= i` of an in-memory collection named `n`, or -1.
pub open spec fn find_collection(colls: Seq<CollectionV>, n: Seq<char>, i: int) -> int
    decreases colls.len() - i,
{
    if !(0 <= i < colls.len()) {
        -1
    } else if colls[i].name == n {
        i
    } else {
        find_collection(colls, n, i + 1)
    }
}

pub open spec fn has_collection_named(colls: Seq<CollectionV>, n: Seq<char>) -> bool {
    find_collection(colls, n, 0) >= 0
}

/// The in-memory collections with every collection named `n` removed, in
/// order, from index `i` on.
pub open spec fn keep_not_named_from(colls: Seq<CollectionV>, n: Seq<char>, i: int) -> Seq<
    CollectionV,
>
    decreases colls.len() - i,
{
    if !(0 <= i < colls.len()) {
        Seq::empty()
    } else {
        let rest = keep_not_named_from(colls, n, i + 1);
        if colls[i].name == n {
            rest
        } else {
            seq![colls[i]] + rest
        }
    }
}

pub open spec fn keep_not_named(colls: Seq<CollectionV>, n: Seq<char>) -> Seq<CollectionV> {
    keep_not_named_from(colls, n, 0)
}

/// `CREATE`: `CREATE DB <name>` makes a database directory unless one of
/// that name exists; `CREATE COLLECTION <name>` needs a selected database
/// and both makes the directory and inserts the collection into in-memory
/// state (once: an insert of a name already present is a no-op). A wrong
/// qualifier names the two accepted ones; a missing name is a syntax error.
pub open spec fn spec_create(
    db: DatabaseV,
    store: StoreV,
    toks: Seq<TokenV>,
    now: Seq<char>,
) -> (DatabaseV, OutcomeV) {
    let t1 = t_at(toks, 1);
    match t1.token_type {
        TokenTypeV::Db => {
            let t2 = t_at(toks, 2);
            match t2.token_type {
                TokenTypeV::Identifier(_) => {
                    let name = t2.slice;
                    if store.has_db(name) {
                        (db, out(msg_already_exists(name), Seq::empty()))
                    } else {
                        (
                            db,
                            out(msg_created_db(name), seq![FsOpV::CreateDbDir { db: name }]),
                        )
                    }
                },
                _ => (db, out(msg_invalid_syntax(), Seq::empty())),
            }
        },
        TokenTypeV::Collection => {
            if db.name.len() == 0 {
                (db, out(msg_no_db_selected(), Seq::empty()))
            } else {
                let t2 = t_at(toks, 2);
                match t2.token_type {
                    TokenTypeV::Identifier(_) => {
                        let name = t2.slice;
                        let cpath = spec_path3(db.config.store_path, db.name, name);
                        let new_colls = if has_collection_named(db.collections, name) {
                            db.collections
                        } else {
                            db.collections.push(
                                CollectionV {
                                    name,
                                    path: cpath,
                                    created_at: now,
                                    documents: Seq::empty(),
                                },
                            )
                        };
                        (
                            DatabaseV { collections: new_colls, ..db },
                            out(
                                msg_created_collection(name),
                                seq![
                                    FsOpV::CreateCollectionDir { db: db.name, collection: name },
                                ],
                            ),
                        )
                    },
                    _ => (db, out(msg_invalid_syntax(), Seq::empty())),
                }
            }
        },
        _ => (db, out(msg_specify(t1.slice), Seq::empty())),
    }
}

/// `DROP`: `DROP DB <name>` removes the database directory tree and resets
/// the whole session context; `DROP COLLECTION <name>` needs a selected
/// database and removes the collection from in-memory state and its
/// directory from disk.
pub open spec fn spec_drop(
    db: DatabaseV,
    store: StoreV,
    toks: Seq<TokenV>,
) -> (DatabaseV, OutcomeV) {
    let t1 = t_at(toks, 1);
    match t1.token_type {
        TokenTypeV::Db => {
            let t2 = t_at(toks, 2);
            match t2.token_type {
                TokenTypeV::Identifier(_) => {
                    let name = t2.slice;
                    (
                        DatabaseV {
                            name: Seq::empty(),
                            path: Seq::empty(),
                            collections: Seq::empty(),
                            current_collection: 0,
                            config: db.config,
                        },
                        out(msg_dropped_db(name), seq![FsOpV::RemoveDbDir { db: name }]),
                    )
                },
                _ => (db, out(msg_invalid_syntax(), Seq::empty())),
            }
        },
        TokenTypeV::Collection => {
            if db.name.len() == 0 {
                (db, out(msg_no_db_selected(), Seq::empty()))
            } else {
                let t2 = t_at(toks, 2);
                match t2.token_type {
                    TokenTypeV::Identifier(_) => {
                        let name = t2.slice;
                        (
                            DatabaseV { collections: keep_not_named(db.collections, name), ..db },
                            out(
                                msg_dropped_collection(name),
                                seq![
                                    FsOpV::RemoveCollectionDir { db: db.name, collection: name },
                                ],
                            ),
                        )
                    },
                    _ => (db, out(msg_invalid_syntax(), Seq::empty())),
                }
            }
        },
        _ => (db, out(msg_invalid_syntax(), Seq::empty())),
    }
}

/// `USE <name>`: when the database directory exists, selects it, resets the
/// collection index, and rebuilds the collection set wholesale from the
/// store tree; otherwise reports that the database was not found and leaves
/// the state untouched.
pub open spec fn spec_use(
    db: DatabaseV,
    store: StoreV,
    toks: Seq<TokenV>,
    now: Seq<char>,
) -> (DatabaseV, OutcomeV) {
    let t1 = t_at(toks, 1);
    match t1.token_type {
        TokenTypeV::Identifier(_) => {
            let name = t1.slice;
            if store.has_db(name) {
                (
                    DatabaseV {
                        name,
                        path: spec_path2(db.config.store_path, name),
                        collections: spec_rebuild(db.config.store_path, store.db_at(name), now),
                        current_collection: 0,
                        config: db.config,
                    },
                    out(msg_using(name), Seq::empty()),
                )
            } else {
                (db, out(msg_db_not_found(), Seq::empty()))
            }
        },
        _ => (db, out(msg_invalid_syntax(), Seq::empty())),
    }
}

/// `SHOW`: `SHOW DBS` lists the database directories; `SHOW <name>` lists
/// that database's collection directories (all of them, empty ones too) or
/// reports that the database was not found. The state never changes.
pub open spec fn spec_show(
    db: DatabaseV,
    store: StoreV,
    toks: Seq<TokenV>,
) -> (DatabaseV, OutcomeV) {
    let t1 = t_at(toks, 1);
    match t1.token_type {
        TokenTypeV::Dbs => (db, out(spec_listing(store.db_names(), msg_no_dbs()), Seq::empty())),
        TokenTypeV::Identifier(_) => {
            let name = t1.slice;
            if store.has_db(name) {
                (
                    db,
                    out(
                        spec_listing(store.db_at(name).coll_names(), msg_no_collections()),
                        Seq::empty(),
                    ),
                )
            } else {
                (db, out(msg_db_not_found(), Seq::empty()))
            }
        },
        _ => (db, out(msg_invalid_syntax(), Seq::empty())),
    }
}

/// Dispatch on the first token: the five live commands, the four reserved
/// commands (recognized but unimplemented), and everything else as an
/// unknown command.
pub open spec fn spec_process(
    db: DatabaseV,
    store: StoreV,
    toks: Seq<TokenV>,
    now: Seq<char>,
) -> (DatabaseV, OutcomeV) {
    if toks.len() == 0 {
        (db, out(Seq::empty(), Seq::empty()))
    } else {
        match toks[0].token_type {
            TokenTypeV::Create => spec_create(db, store, toks, now),
            TokenTypeV::Drop => spec_drop(db, store, toks),
            TokenTypeV::Use => spec_use(db, store, toks, now),
            TokenTypeV::Show => spec_show(db, store, toks),
            TokenTypeV::Help => (db, out(help_text(), Seq::empty())),
            TokenTypeV::Insert => (db, out(msg_unimplemented(toks[0].slice), Seq::empty())),
            TokenTypeV::Update => (db, out(msg_unimplemented(toks[0].slice), Seq::empty())),
            TokenTypeV::Delete => (db, out(msg_unimplemented(toks[0].slice), Seq::empty())),
            TokenTypeV::Find => (db, out(msg_unimplemented(toks[0].slice), Seq::empty())),
            _ => (db, out(msg_unknown(toks[0].slice), Seq::empty())),
        }
    }
}

} // verus!
