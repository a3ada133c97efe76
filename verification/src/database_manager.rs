//! The command interpreter: the session state and the five command
//! handlers, each proved to return exactly what the spec-level interpreter
//! in [`crate::semantics`] says.

use crate::collection::Collection;
use crate::document::Document;
use crate::configuration::Configuration;
use crate::lexer::{Token, TokenType, tokens_view};
use crate::semantics::{
    DatabaseV, OutcomeV, find_collection, has_collection_named, join_lines, keep_not_named,
    keep_not_named_from, lemma_join_lines_push, out, spec_create, spec_documents_of, spec_drop,
    spec_process, spec_rebuild, spec_rebuild_from, spec_show, spec_use, t_at,
};
use crate::store::{FsOp, Store, ops_view};
use crate::text::{doc_name_of, path_join2, path_join3, str_eq};
use crate::token_list::TokenList;
use vstd::prelude::*;
use vstd::string::StrSliceExecFns;
use vstd::string::StringExecFns;

verus! {

/// The session state: the currently selected database (none when `name` is
/// empty), its in-memory collections, the selected-collection index, and
/// the shared, read-only configuration.
#[derive(Clone, Debug, Default, Eq, PartialEq)]
pub struct Database {
    pub name: String,
    pub path: String,
    pub collections: Vec<Collection>,
    pub current_collection: usize,
    pub config: Configuration,
}

impl View for Database {
    type V = DatabaseV;

    open spec fn view(&self) -> DatabaseV {
        DatabaseV {
            name: self.name@,
            path: self.path@,
            collections: self.collections@.map_values(|c: Collection| c@),
            current_collection: self.current_collection as int,
            config: self.config@,
        }
    }
}

/// What one command execution hands back: the text for the client, the
/// exit flag (never set by any current command), and the directory
/// operations for the caller to perform on the real store.
#[derive(Clone, Debug)]
pub struct CommandOutcome {
    pub output: String,
    pub exit: bool,
    pub ops: Vec<FsOp>,
}

impl View for CommandOutcome {
    type V = OutcomeV;

    open spec fn view(&self) -> OutcomeV {
        OutcomeV { output: self.output@, exit: self.exit, ops: ops_view(self.ops@) }
    }
}

fn outcome_no_ops(output: String) -> (r: CommandOutcome)
    ensures
        r@ == out(output@, Seq::empty()),
{
    let r = CommandOutcome { output, exit: false, ops: Vec::new() };
    proof {
        assert(r@.ops =~= Seq::<crate::store::FsOpV>::empty());
        assert(r@ =~~= out(r.output@, Seq::empty()));
    }
    r
}

fn outcome_one_op(output: String, op: FsOp) -> (r: CommandOutcome)
    ensures
        r@ == out(output@, seq![op@]),
{
    let mut ops: Vec<FsOp> = Vec::new();
    ops.push(op);
    let r = CommandOutcome { output, exit: false, ops };
    proof {
        assert(r@.ops =~= seq![r.ops@[0]@]);
        assert(r@ =~~= out(r.output@, r@.ops));
    }
    r
}

/// Three string pieces joined in order.
fn msg3(prefix: &str, mid: &str, suffix: &str) -> (r: String)
    ensures
        r@ == prefix@ + mid@ + suffix@,
{
    let mut s = String::from_str(prefix);
    s.append(mid);
    s.append(suffix);
    s
}

/// Two string pieces joined in order.
fn msg2(prefix: &str, tail: &str) -> (r: String)
    ensures
        r@ == prefix@ + tail@,
{
    let mut s = String::from_str(prefix);
    s.append(tail);
    s
}

/// Replaces an empty listing by the placeholder, then strips the final
/// character, as every `SHOW` listing does.
fn finish_listing(stream: String, empty_msg: &str) -> (r: String)
    requires
        empty_msg@.len() >= 1,
    ensures
        r@ == ({
            let t = if stream@.len() == 0 {
                empty_msg@
            } else {
                stream@
            };
            t.take(t.len() as int - 1)
        }),
{
    let s = if stream.as_str().is_empty() {
        String::from_str(empty_msg)
    } else {
        stream
    };
    let m = s.as_str().unicode_len();
    let res = s.as_str().substring_char(0, m - 1);
    String::from_str(res)
}

impl Database {
    pub fn new(
        name: String,
        path: String,
        collections: Vec<Collection>,
        current_collection: usize,
        config: Configuration,
    ) -> (d: Database)
        ensures
            d@ == (DatabaseV {
                name: name@,
                path: path@,
                collections: collections@.map_values(|c: Collection| c@),
                current_collection: current_collection as int,
                config: config@,
            }),
    {
        Database { name, path, collections, current_collection, config }
    }

    /// A copy that Verus knows to be equal to the original in every field.
    pub fn duplicate(&self) -> (d: Database)
        ensures
            d@ == self@,
    {
        let mut collections: Vec<Collection> = Vec::new();
        let len = self.collections.len();
        let mut i: usize = 0;
        while i < len
            invariant
                len == self.collections@.len(),
                i <= len,
                collections@.map_values(|c: Collection| c@) =~= self.collections@.map_values(
                    |c: Collection| c@,
                ).take(i as int),
            decreases len - i,
        {
            let ghost prev = collections@;
            collections.push(self.collections[i].duplicate());
            proof {
                let f = |c: Collection| c@;
                assert(collections@.map_values(f) =~= prev.map_values(f).push(
                    self.collections@.map_values(f)[i as int],
                ));
                assert(collections@.map_values(f) =~= self.collections@.map_values(f).take(i + 1));
            }
            i += 1;
        }
        proof {
            assert(collections@.map_values(|c: Collection| c@) =~= self.collections@.map_values(
                |c: Collection| c@,
            ));
        }
        let d = Database {
            name: self.name.clone(),
            path: self.path.clone(),
            collections,
            current_collection: self.current_collection,
            config: self.config.duplicate(),
        };
        proof {
            assert(d@ =~~= self@);
        }
        d
    }

    /// Value equality of two session states, stated on the model. The
    /// session layer commits a mutated clone back to the shared state only
    /// when this is false.
    pub fn same_state(&self, o: &Database) -> (r: bool)
        ensures
            r == (self@ == o@),
    {
        if !str_eq(self.name.as_str(), o.name.as_str()) {
            proof {
                if self@ == o@ {
                    assert(self@.name == o@.name);
                }
            }
            return false;
        }
        if !str_eq(self.path.as_str(), o.path.as_str()) {
            proof {
                if self@ == o@ {
                    assert(self@.path == o@.path);
                }
            }
            return false;
        }
        if self.current_collection != o.current_collection {
            proof {
                if self@ == o@ {
                    assert(self@.current_collection == o@.current_collection);
                }
            }
            return false;
        }
        if !self.config.same_as(&o.config) {
            proof {
                if self@ == o@ {
                    assert(self@.config == o@.config);
                }
            }
            return false;
        }
        let len = self.collections.len();
        if len != o.collections.len() {
            proof {
                if self@ == o@ {
                    assert(self@.collections.len() == o@.collections.len());
                }
            }
            return false;
        }
        let mut i: usize = 0;
        while i < len
            invariant
                len == self.collections@.len(),
                len == o.collections@.len(),
                i <= len,
                forall|k: int| 0 <= k < i ==> self@.collections[k] == o@.collections[k],
            decreases len - i,
        {
            if !self.collections[i].same_as(&o.collections[i]) {
                proof {
                    if self@ == o@ {
                        assert(self@.collections[i as int] == o@.collections[i as int]);
                    }
                }
                return false;
            }
            i += 1;
        }
        proof {
            assert(self@.collections =~= o@.collections);
            assert(self@ =~~= o@);
        }
        true
    }

    /// Whether an in-memory collection of this name is present.
    fn contains_collection(&self, n: &str) -> (r: bool)
        ensures
            r == has_collection_named(self@.collections, n@),
    {
        let ghost colls = self@.collections;
        let len = self.collections.len();
        let mut i: usize = 0;
        while i < len
            invariant
                len == self.collections@.len(),
                colls == self@.collections,
                colls.len() == len,
                i <= len,
                find_collection(colls, n@, 0) == find_collection(colls, n@, i as int),
            decreases len - i,
        {
            if str_eq(self.collections[i].name.as_str(), n) {
                return true;
            }
            i += 1;
        }
        false
    }

    /// Executes the command held by the token list (already filtered of
    /// whitespace tokens, cursor on its first token) against this state and
    /// the given store snapshot. `now` stamps any collection created or
    /// rebuilt. Returns the reply text and the directory operations to
    /// perform; the caller applies those to the real store.
    pub fn process_tokens(&mut self, token_list: TokenList, store: &Store, now: &str) -> (r:
        CommandOutcome)
        requires
            token_list.tokens@.len() >= 1,
            token_list.current_index == 0,
            token_list.current_token == token_list.tokens@[0],
        ensures
            final(self)@ == spec_process(
                old(self)@,
                store@,
                tokens_view(token_list.tokens@),
                now@,
            ).0,
            r@ == spec_process(old(self)@, store@, tokens_view(token_list.tokens@), now@).1,
    {
        let ghost toks = tokens_view(token_list.tokens@);
        proof {
            assert(toks[0] == token_list.tokens@[0]@);
        }
        let tt = token_list.tokens[0].token_type.duplicate();
        match tt {
            TokenType::Create => self.f_create(token_list, store, now),
            TokenType::Drop => self.f_drop(token_list, store),
            TokenType::Use => self.f_use(token_list, store, now),
            TokenType::Show => self.f_show(token_list, store),
            TokenType::Help => {
                let output = String::from_str(
                    "Commands:\n\r  CREATE DB <name>\n\r  CREATE COLLECTION <name>\n\r  DROP DB <name>\n\r  DROP COLLECTION <name>\n\r  USE <name>\n\r  SHOW DBS\n\r  SHOW <name>\n\r  HELP\n\r",
                );
                outcome_no_ops(output)
            },
            TokenType::Insert => {
                let output = msg3(
                    "Error: command \"",
                    token_list.tokens[0].slice.as_str(),
                    "\" is not implemented",
                );
                outcome_no_ops(output)
            },
            TokenType::Update => {
                let output = msg3(
                    "Error: command \"",
                    token_list.tokens[0].slice.as_str(),
                    "\" is not implemented",
                );
                outcome_no_ops(output)
            },
            TokenType::Delete => {
                let output = msg3(
                    "Error: command \"",
                    token_list.tokens[0].slice.as_str(),
                    "\" is not implemented",
                );
                outcome_no_ops(output)
            },
            TokenType::Find => {
                let output = msg3(
                    "Error: command \"",
                    token_list.tokens[0].slice.as_str(),
                    "\" is not implemented",
                );
                outcome_no_ops(output)
            },
            _ => {
                let output = msg3("Unknown command: ", token_list.tokens[0].slice.as_str(), "\n\r");
                outcome_no_ops(output)
            },
        }
    }

    /// The `CREATE` handler.
    fn f_create(&mut self, token_list: TokenList, store: &Store, now: &str) -> (r: CommandOutcome)
        requires
            token_list.tokens@.len() >= 1,
            token_list.current_index == 0,
            token_list.current_token == token_list.tokens@[0],
        ensures
            final(self)@ == spec_create(
                old(self)@,
                store@,
                tokens_view(token_list.tokens@),
                now@,
            ).0,
            r@ == spec_create(old(self)@, store@, tokens_view(token_list.tokens@), now@).1,
    {
        let ghost toks = tokens_view(token_list.tokens@);
        let mut token_list = token_list;
        token_list.next(1);
        proof {
            assert(token_list.current_token@ == t_at(toks, 1));
        }
        match &token_list.current_token.token_type {
            TokenType::Db => {
                token_list.next(1);
                proof {
                    assert(token_list.current_token@ == t_at(toks, 2));
                }
                match &token_list.current_token.token_type {
                    TokenType::Identifier(_) => {
                        let name = &token_list.current_token.slice;
                        if store.contains_db(name.as_str()) {
                            let output = msg3(
                                "Error: database \"",
                                name.as_str(),
                                "\" already exists",
                            );
                            outcome_no_ops(output)
                        } else {
                            let output = msg3("Created database \"", name.as_str(), "\"");
                            outcome_one_op(output, FsOp::CreateDbDir { db: name.clone() })
                        }
                    },
                    _ => outcome_no_ops(String::from_str("Error: invalid syntax\n\r")),
                }
            },
            TokenType::Collection => {
                if self.name.as_str().is_empty() {
                    let output = String::from_str(
                        "Error: no database provided. Select one with \"use <name>\" ",
                    );
                    outcome_no_ops(output)
                } else {
                    token_list.next(1);
                    proof {
                        assert(token_list.current_token@ == t_at(toks, 2));
                    }
                    match &token_list.current_token.token_type {
                        TokenType::Identifier(_) => {
                            let name = &token_list.current_token.slice;
                            let cpath = path_join3(
                                self.config.store_path.as_str(),
                                self.name.as_str(),
                                name.as_str(),
                            );
                            let ghost colls_before = self@.collections;
                            if !self.contains_collection(name.as_str()) {
                                let c = Collection::with_created_at(
                                    name.clone(),
                                    cpath,
                                    String::from_str(now),
                                    Vec::new(),
                                );
                                let ghost cv = c@;
                                self.collections.push(c);
                                proof {
                                    assert(self@.collections =~= colls_before.push(cv));
                                    assert(cv.documents =~= Seq::<
                                        crate::document::DocumentV,
                                    >::empty());
                                }
                            }
                            let op = FsOp::CreateCollectionDir {
                                db: self.name.clone(),
                                collection: name.clone(),
                            };
                            let output = msg3("Created collection \"", name.as_str(), "\"");
                            let r = outcome_one_op(output, op);
                            proof {
                                assert(self@ =~~= spec_create(old(self)@, store@, toks, now@).0);
                            }
                            r
                        },
                        _ => outcome_no_ops(String::from_str("Error: invalid syntax\n\r")),
                    }
                }
            },
            _ => {
                let output = msg3(
                    "You need to specify either \"db\" or \"collection\" before \"",
                    token_list.current_token.slice.as_str(),
                    "\"",
                );
                outcome_no_ops(output)
            },
        }
    }

    /// The `DROP` handler.
    fn f_drop(&mut self, token_list: TokenList, store: &Store) -> (r: CommandOutcome)
        requires
            token_list.tokens@.len() >= 1,
            token_list.current_index == 0,
            token_list.current_token == token_list.tokens@[0],
        ensures
            final(self)@ == spec_drop(old(self)@, store@, tokens_view(token_list.tokens@)).0,
            r@ == spec_drop(old(self)@, store@, tokens_view(token_list.tokens@)).1,
    {
        let ghost toks = tokens_view(token_list.tokens@);
        let mut token_list = token_list;
        token_list.next(1);
        proof {
            assert(token_list.current_token@ == t_at(toks, 1));
        }
        match &token_list.current_token.token_type {
            TokenType::Db => {
                token_list.next(1);
                proof {
                    assert(token_list.current_token@ == t_at(toks, 2));
                }
                match &token_list.current_token.token_type {
                    TokenType::Identifier(_) => {
                        let name = &token_list.current_token.slice;
                        let op = FsOp::RemoveDbDir { db: name.clone() };
                        let output = msg3("Dropped database \"", name.as_str(), "\"");
                        self.name = String::new();
                        self.path = String::new();
                        self.current_collection = 0;
                        self.collections = Vec::new();
                        let r = outcome_one_op(output, op);
                        proof {
                            assert(self@.collections =~= Seq::<
                                crate::collection::CollectionV,
                            >::empty());
                            assert(self@ =~~= spec_drop(old(self)@, store@, toks).0);
                        }
                        r
                    },
                    _ => outcome_no_ops(String::from_str("Error: invalid syntax\n\r")),
                }
            },
            TokenType::Collection => {
                if self.name.as_str().is_empty() {
                    let output = String::from_str(
                        "Error: no database provided. Select one with \"use <name>\" ",
                    );
                    outcome_no_ops(output)
                } else {
                    token_list.next(1);
                    proof {
                        assert(token_list.current_token@ == t_at(toks, 2));
                    }
                    match &token_list.current_token.token_type {
                        TokenType::Identifier(_) => {
                            let name = &token_list.current_token.slice;
                            let op = FsOp::RemoveCollectionDir {
                                db: self.name.clone(),
                                collection: name.clone(),
                            };
                            let output = msg3("Dropped collection \"", name.as_str(), "\"");
                            self.remove_collections_named(name.as_str());
                            let r = outcome_one_op(output, op);
                            proof {
                                assert(self@ =~~= spec_drop(old(self)@, store@, toks).0);
                            }
                            r
                        },
                        _ => outcome_no_ops(String::from_str("Error: invalid syntax\n\r")),
                    }
                }
            },
            _ => outcome_no_ops(String::from_str("Error: invalid syntax\n\r")),
        }
    }

    /// Removes every in-memory collection of this name, keeping the order
    /// of the rest.
    fn remove_collections_named(&mut self, n: &str)
        ensures
            final(self)@ == (DatabaseV {
                collections: keep_not_named(old(self)@.collections, n@),
                ..old(self)@
            }),
    {
        let ghost colls = self@.collections;
        let mut kept: Vec<Collection> = Vec::new();
        let len = self.collections.len();
        let mut i: usize = 0;
        while i < len
            invariant
                len == self.collections@.len(),
                colls == self@.collections,
                colls.len() == len,
                i <= len,
                kept@.map_values(|c: Collection| c@) + keep_not_named_from(colls, n@, i as int)
                    == keep_not_named(colls, n@),
            decreases len - i,
        {
            let ghost prev = kept@;
            if !str_eq(self.collections[i].name.as_str(), n) {
                kept.push(self.collections[i].duplicate());
                proof {
                    let f = |c: Collection| c@;
                    assert(kept@.map_values(f) =~= prev.map_values(f).push(colls[i as int]));
                    assert(prev.map_values(f).push(colls[i as int]) + keep_not_named_from(
                        colls,
                        n@,
                        i + 1,
                    ) =~= prev.map_values(f) + (seq![colls[i as int]] + keep_not_named_from(
                        colls,
                        n@,
                        i + 1,
                    )));
                }
            }
            i += 1;
        }
        proof {
            assert(kept@.map_values(|c: Collection| c@) + keep_not_named_from(
                colls,
                n@,
                len as int,
            ) =~= kept@.map_values(|c: Collection| c@));
        }
        self.collections = kept;
        proof {
            assert(self@ =~~= (DatabaseV {
                collections: keep_not_named(old(self)@.collections, n@),
                ..old(self)@
            }));
        }
    }

    /// The `USE` handler.
    fn f_use(&mut self, token_list: TokenList, store: &Store, now: &str) -> (r: CommandOutcome)
        requires
            token_list.tokens@.len() >= 1,
            token_list.current_index == 0,
            token_list.current_token == token_list.tokens@[0],
        ensures
            final(self)@ == spec_use(old(self)@, store@, tokens_view(token_list.tokens@), now@).0,
            r@ == spec_use(old(self)@, store@, tokens_view(token_list.tokens@), now@).1,
    {
        let ghost toks = tokens_view(token_list.tokens@);
        let mut token_list = token_list;
        token_list.next(1);
        proof {
            assert(token_list.current_token@ == t_at(toks, 1));
        }
        match &token_list.current_token.token_type {
            TokenType::Identifier(_) => {
                let name = &token_list.current_token.slice;
                match store.db_position(name.as_str()) {
                    Some(pos) => {
                        let dbdir = &store.dbs[pos];
                        proof {
                            assert(dbdir@ == store@.db_at(name@));
                        }
                        let ghost sp = self.config.store_path@;
                        let mut collections: Vec<Collection> = Vec::new();
                        let clen = dbdir.colls.len();
                        let mut i: usize = 0;
                        while i < clen
                            invariant
                                clen == dbdir.colls@.len(),
                                i <= clen,
                                sp == self.config.store_path@,
                                collections@.map_values(|c: Collection| c@) + spec_rebuild_from(
                                    sp,
                                    dbdir@.name,
                                    dbdir@.colls,
                                    i as int,
                                    now@,
                                ) == spec_rebuild(sp, dbdir@, now@),
                            decreases clen - i,
                        {
                            let ghost prev = collections@;
                            let cd = &dbdir.colls[i];
                            if cd.files.len() > 0 {
                                let cpath = path_join3(
                                    self.config.store_path.as_str(),
                                    dbdir.name.as_str(),
                                    cd.name.as_str(),
                                );
                                let mut documents: Vec<Document> = Vec::new();
                                let flen = cd.files.len();
                                let mut j: usize = 0;
                                while j < flen
                                    invariant
                                        flen == cd.files@.len(),
                                        j <= flen,
                                        cpath@ == crate::text::spec_path3(
                                            sp,
                                            dbdir@.name,
                                            cd@.name,
                                        ),
                                        documents@.map_values(|d: Document| d@)
                                            =~= spec_documents_of(
                                            cd@.files.take(j as int),
                                            cpath@,
                                        ),
                                    decreases flen - j,
                                {
                                    let ghost dprev = documents@;
                                    let f = &cd.files[j];
                                    let dname = doc_name_of(f.as_str());
                                    let dpath = path_join2(cpath.as_str(), f.as_str());
                                    documents.push(Document::new(dname, dpath));
                                    proof {
                                        let fd = |d: Document| d@;
                                        assert(documents@.map_values(fd) =~= dprev.map_values(
                                            fd,
                                        ).push(documents@[j as int]@));
                                        assert(cd@.files.take(j + 1) =~= cd@.files.take(
                                            j as int,
                                        ).push(cd@.files[j as int]));
                                        assert(documents@.map_values(fd) =~= spec_documents_of(
                                            cd@.files.take(j + 1),
                                            cpath@,
                                        ));
                                    }
                                    j += 1;
                                }
                                proof {
                                    assert(cd@.files.take(flen as int) =~= cd@.files);
                                }
                                let c = Collection::with_created_at(
                                    cd.name.clone(),
                                    cpath,
                                    String::from_str(now),
                                    documents,
                                );
                                collections.push(c);
                                proof {
                                    let fc = |c: Collection| c@;
                                    assert(collections@.map_values(fc) =~= prev.map_values(
                                        fc,
                                    ).push(collections@[collections@.len() - 1]@));
                                    assert(collections@.map_values(fc) + spec_rebuild_from(
                                        sp,
                                        dbdir@.name,
                                        dbdir@.colls,
                                        i + 1,
                                        now@,
                                    ) =~= prev.map_values(fc) + spec_rebuild_from(
                                        sp,
                                        dbdir@.name,
                                        dbdir@.colls,
                                        i as int,
                                        now@,
                                    ));
                                }
                            }
                            i += 1;
                        }
                        proof {
                            assert(collections@.map_values(|c: Collection| c@)
                                + spec_rebuild_from(sp, dbdir@.name, dbdir@.colls, clen as int, now@)
                                =~= collections@.map_values(|c: Collection| c@));
                        }
                        let new_path = path_join2(self.config.store_path.as_str(), name.as_str());
                        self.path = new_path;
                        self.name = name.clone();
                        self.current_collection = 0;
                        self.collections = collections;
                        let output = msg2("Using database: ", self.name.as_str());
                        let r = outcome_no_ops(output);
                        proof {
                            assert(self@ =~~= spec_use(old(self)@, store@, toks, now@).0);
                        }
                        r
                    },
                    None => outcome_no_ops(String::from_str("Error: database not found")),
                }
            },
            _ => outcome_no_ops(String::from_str("Error: invalid syntax\n\r")),
        }
    }

    /// The `SHOW` handler.
    fn f_show(&self, token_list: TokenList, store: &Store) -> (r: CommandOutcome)
        requires
            token_list.tokens@.len() >= 1,
            token_list.current_index == 0,
            token_list.current_token == token_list.tokens@[0],
        ensures
            r@ == spec_show(self@, store@, tokens_view(token_list.tokens@)).1,
    {
        let ghost toks = tokens_view(token_list.tokens@);
        let mut token_list = token_list;
        token_list.next(1);
        proof {
            assert(token_list.current_token@ == t_at(toks, 1));
        }
        match &token_list.current_token.token_type {
            TokenType::Dbs => {
                let mut stream = String::new();
                let len = store.dbs.len();
                let mut i: usize = 0;
                while i < len
                    invariant
                        len == store.dbs@.len(),
                        i <= len,
                        stream@ == join_lines(store@.db_names().take(i as int)),
                    decreases len - i,
                {
                    stream.append(store.dbs[i].name.as_str());
                    stream.append("\n\r");
                    proof {
                        assert(store@.db_names().take(i + 1) =~= store@.db_names().take(
                            i as int,
                        ).push(store@.db_names()[i as int]));
                        lemma_join_lines_push(
                            store@.db_names().take(i as int),
                            store@.db_names()[i as int],
                        );
                    }
                    i += 1;
                }
                proof {
                    assert(store@.db_names().take(len as int) =~= store@.db_names());
                    reveal_strlit("No databases found\n\r");
                }
                let output = finish_listing(stream, "No databases found\n\r");
                outcome_no_ops(output)
            },
            TokenType::Identifier(_) => {
                let name = &token_list.current_token.slice;
                match store.db_position(name.as_str()) {
                    Some(pos) => {
                        let dbdir = &store.dbs[pos];
                        proof {
                            assert(dbdir@ == store@.db_at(name@));
                        }
                        let mut stream = String::new();
                        let len = dbdir.colls.len();
                        let mut i: usize = 0;
                        while i < len
                            invariant
                                len == dbdir.colls@.len(),
                                i <= len,
                                stream@ == join_lines(dbdir@.coll_names().take(i as int)),
                            decreases len - i,
                        {
                            stream.append(dbdir.colls[i].name.as_str());
                            stream.append("\n\r");
                            proof {
                                assert(dbdir@.coll_names().take(i + 1) =~= dbdir@.coll_names().take(
                                    i as int,
                                ).push(dbdir@.coll_names()[i as int]));
                                lemma_join_lines_push(
                                    dbdir@.coll_names().take(i as int),
                                    dbdir@.coll_names()[i as int],
                                );
                            }
                            i += 1;
                        }
                        proof {
                            assert(dbdir@.coll_names().take(len as int) =~= dbdir@.coll_names());
                            reveal_strlit("No collections found\n\r");
                        }
                        let output = finish_listing(stream, "No collections found\n\r");
                        outcome_no_ops(output)
                    },
                    None => outcome_no_ops(String::from_str("Error: database not found")),
                }
            },
            _ => outcome_no_ops(String::from_str("Error: invalid syntax\n\r")),
        }
    }
}

} // verus!
