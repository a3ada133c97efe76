//! A pure model of the store directory tree.
//!
//! The persisted state of the system is a directory hierarchy: the store
//! root holds one directory per database, each database directory holds one
//! directory per collection, and each collection directory holds zero or
//! more files, one per document. The interpreter never touches the real
//! filesystem: it reads a [`Store`] snapshot of that tree (directories and
//! files only, with entry kinds already resolved by whoever took the
//! snapshot) and emits [`FsOp`] values describing the directory operations
//! to perform. [`Store::apply`] gives those operations their meaning on the
//! model, mirroring what the real filesystem calls do.

use vstd::prelude::*;
use vstd::string::StringExecFns;

verus! {

/// One collection directory: its name and the names (with extension) of the
/// files in it.
#[derive(Clone, Debug)]
pub struct CollDir {
    pub name: String,
    pub files: Vec<String>,
}

/// One database directory: its name and its collection subdirectories.
#[derive(Clone, Debug)]
pub struct DbDir {
    pub name: String,
    pub colls: Vec<CollDir>,
}

/// A snapshot of the store root: one entry per database directory.
#[derive(Clone, Debug)]
pub struct Store {
    pub dbs: Vec<DbDir>,
}

/// Model of a [`CollDir`].
#[verifier::ext_equal]
pub struct CollDirV {
    pub name: Seq<char>,
    pub files: Seq<Seq<char>>,
}

/// Model of a [`DbDir`].
#[verifier::ext_equal]
pub struct DbDirV {
    pub name: Seq<char>,
    pub colls: Seq<CollDirV>,
}

/// Model of a [`Store`].
#[verifier::ext_equal]
pub struct StoreV {
    pub dbs: Seq<DbDirV>,
}

impl View for CollDir {
    type V = CollDirV;

    open spec fn view(&self) -> CollDirV {
        CollDirV { name: self.name@, files: self.files@.map_values(|f: String| f@) }
    }
}

impl View for DbDir {
    type V = DbDirV;

    open spec fn view(&self) -> DbDirV {
        DbDirV { name: self.name@, colls: self.colls@.map_values(|c: CollDir| c@) }
    }
}

impl View for Store {
    type V = StoreV;

    open spec fn view(&self) -> StoreV {
        StoreV { dbs: self.dbs@.map_values(|d: DbDir| d@) }
    }
}

/// No two of the given names are equal.
pub open spec fn distinct_names(names: Seq<Seq<char>>) -> bool {
    forall|i: int, j: int| 0 <= i < j < names.len() ==> names[i] != names[j]
}

impl CollDirV {
    /// A directory's entries have pairwise distinct names.
    pub open spec fn wf(self) -> bool {
        distinct_names(self.files)
    }
}

impl DbDirV {
    pub open spec fn coll_names(self) -> Seq<Seq<char>> {
        self.colls.map_values(|c: CollDirV| c.name)
    }

    pub open spec fn wf(self) -> bool {
        &&& distinct_names(self.coll_names())
        &&& forall|i: int| 0 <= i < self.colls.len() ==> (#[trigger] self.colls[i]).wf()
    }

    /// Index of the collection directory named `n`, or -1.
    pub open spec fn coll_index(self, n: Seq<char>) -> int {
        find_coll(self.colls, n, 0)
    }

    pub open spec fn has_coll(self, n: Seq<char>) -> bool {
        self.coll_index(n) >= 0
    }

    pub open spec fn coll_at(self, n: Seq<char>) -> CollDirV {
        self.colls[self.coll_index(n)]
    }
}

/// First index `>= i` of a collection named `n`, or -1.
pub open spec fn find_coll(colls: Seq<CollDirV>, n: Seq<char>, i: int) -> int
    decreases colls.len() - i,
{
    if !(0 <= i < colls.len()) {
        -1
    } else if colls[i].name == n {
        i
    } else {
        find_coll(colls, n, i + 1)
    }
}

/// First index `>= i` of a database named `n`, or -1.
pub open spec fn find_db(dbs: Seq<DbDirV>, n: Seq<char>, i: int) -> int
    decreases dbs.len() - i,
{
    if !(0 <= i < dbs.len()) {
        -1
    } else if dbs[i].name == n {
        i
    } else {
        find_db(dbs, n, i + 1)
    }
}

impl StoreV {
    pub open spec fn db_names(self) -> Seq<Seq<char>> {
        self.dbs.map_values(|d: DbDirV| d.name)
    }

    /// Index of the database directory named `n`, or -1.
    pub open spec fn db_index(self, n: Seq<char>) -> int {
        find_db(self.dbs, n, 0)
    }

    pub open spec fn has_db(self, n: Seq<char>) -> bool {
        self.db_index(n) >= 0
    }

    pub open spec fn db_at(self, n: Seq<char>) -> DbDirV {
        self.dbs[self.db_index(n)]
    }

    /// The snapshot is shaped as a real directory tree: pairwise distinct
    /// names at every level.
    pub open spec fn wf(self) -> bool {
        &&& distinct_names(self.db_names())
        &&& forall|i: int| 0 <= i < self.dbs.len() ==> (#[trigger] self.dbs[i]).wf()
    }
}

pub proof fn lemma_find_db_properties(dbs: Seq<DbDirV>, n: Seq<char>, i: int)
    requires
        0 <= i <= dbs.len(),
    ensures
        find_db(dbs, n, i) == -1 || find_db(dbs, n, i) >= i,
        find_db(dbs, n, i) == -1 ==> forall|k: int| i <= k < dbs.len() ==> dbs[k].name != n,
        find_db(dbs, n, i) >= 0 ==> i <= find_db(dbs, n, i) < dbs.len() && dbs[find_db(
            dbs,
            n,
            i,
        )].name == n,
    decreases dbs.len() - i,
{
    if i < dbs.len() && dbs[i].name != n {
        lemma_find_db_properties(dbs, n, i + 1);
    }
}

pub proof fn lemma_find_coll_properties(colls: Seq<CollDirV>, n: Seq<char>, i: int)
    requires
        0 <= i <= colls.len(),
    ensures
        find_coll(colls, n, i) == -1 || find_coll(colls, n, i) >= i,
        find_coll(colls, n, i) == -1 ==> forall|k: int| i <= k < colls.len() ==> colls[k].name
            != n,
        find_coll(colls, n, i) >= 0 ==> i <= find_coll(colls, n, i) < colls.len() && colls[
            find_coll(colls, n, i)
        ].name == n,
    decreases colls.len() - i,
{
    if i < colls.len() && colls[i].name != n {
        lemma_find_coll_properties(colls, n, i + 1);
    }
}

/// One directory operation on the store, as the interpreter plans it. The
/// create operations behave like recursive directory creation (no error if
/// the directory exists, parents created as needed); the remove operations
/// behave like recursive tree removal (an error if the directory is
/// missing).
#[derive(Clone, Debug)]
pub enum FsOp {
    CreateDbDir { db: String },
    CreateCollectionDir { db: String, collection: String },
    RemoveDbDir { db: String },
    RemoveCollectionDir { db: String, collection: String },
}

/// Model of an [`FsOp`].
pub enum FsOpV {
    CreateDbDir { db: Seq<char> },
    CreateCollectionDir { db: Seq<char>, collection: Seq<char> },
    RemoveDbDir { db: Seq<char> },
    RemoveCollectionDir { db: Seq<char>, collection: Seq<char> },
}

impl View for FsOp {
    type V = FsOpV;

    open spec fn view(&self) -> FsOpV {
        match self {
            FsOp::CreateDbDir { db } => FsOpV::CreateDbDir { db: db@ },
            FsOp::CreateCollectionDir { db, collection } => FsOpV::CreateCollectionDir {
                db: db@,
                collection: collection@,
            },
            FsOp::RemoveDbDir { db } => FsOpV::RemoveDbDir { db: db@ },
            FsOp::RemoveCollectionDir { db, collection } => FsOpV::RemoveCollectionDir {
                db: db@,
                collection: collection@,
            },
        }
    }
}

/// The views of an operation vector.
pub open spec fn ops_view(ops: Seq<FsOp>) -> Seq<FsOpV> {
    ops.map_values(|op: FsOp| op@)
}

/// What one directory operation does to the store tree: the new tree, or
/// `None` where the real filesystem call would fail (removing a directory
/// that is not there).
pub open spec fn spec_apply(s: StoreV, op: FsOpV) -> Option<StoreV> {
    match op {
        FsOpV::CreateDbDir { db } => {
            if s.has_db(db) {
                Some(s)
            } else {
                Some(StoreV { dbs: s.dbs.push(DbDirV { name: db, colls: Seq::empty() }) })
            }
        },
        FsOpV::CreateCollectionDir { db, collection } => {
            if s.has_db(db) {
                let i = s.db_index(db);
                let d = s.dbs[i];
                if d.has_coll(collection) {
                    Some(s)
                } else {
                    Some(
                        StoreV {
                            dbs: s.dbs.update(
                                i,
                                DbDirV {
                                    name: d.name,
                                    colls: d.colls.push(
                                        CollDirV { name: collection, files: Seq::empty() },
                                    ),
                                },
                            ),
                        },
                    )
                }
            } else {
                Some(
                    StoreV {
                        dbs: s.dbs.push(
                            DbDirV {
                                name: db,
                                colls: seq![CollDirV { name: collection, files: Seq::empty() }],
                            },
                        ),
                    },
                )
            }
        },
        FsOpV::RemoveDbDir { db } => {
            if s.has_db(db) {
                Some(StoreV { dbs: s.dbs.remove(s.db_index(db)) })
            } else {
                None
            }
        },
        FsOpV::RemoveCollectionDir { db, collection } => {
            if s.has_db(db) {
                let i = s.db_index(db);
                let d = s.dbs[i];
                if d.has_coll(collection) {
                    Some(
                        StoreV {
                            dbs: s.dbs.update(
                                i,
                                DbDirV {
                                    name: d.name,
                                    colls: d.colls.remove(d.coll_index(collection)),
                                },
                            ),
                        },
                    )
                } else {
                    None
                }
            } else {
                None
            }
        },
    }
}

/// What a sequence of operations does, applied in order; `None` if any one
/// of them fails (the ones before it have still happened).
pub open spec fn spec_apply_all(s: StoreV, ops: Seq<FsOpV>) -> Option<StoreV>
    decreases ops.len(),
{
    if ops.len() == 0 {
        Some(s)
    } else {
        match spec_apply(s, ops[0]) {
            Some(s1) => spec_apply_all(s1, ops.drop_first()),
            None => None,
        }
    }
}

impl Store {
    /// Applies one directory operation to the model tree, as the real
    /// filesystem would: `false` where the real call would fail, in which
    /// case the tree is unchanged.
    pub fn apply(&mut self, op: &FsOp) -> (ok: bool)
        ensures
            match spec_apply(old(self)@, op@) {
                Some(s1) => ok && final(self)@ == s1,
                None => !ok && final(self)@ == old(self)@,
            },
    {
        match op {
            FsOp::CreateDbDir { db } => {
                match self.db_position(db.as_str()) {
                    Some(_) => {
                        proof {
                            assert(self@ =~~= spec_apply(old(self)@, op@).unwrap());
                        }
                        true
                    },
                    None => {
                        let d = DbDir { name: db.clone(), colls: Vec::new() };
                        self.dbs.push(d);
                        proof {
                            assert(self@ =~~= spec_apply(old(self)@, op@).unwrap());
                        }
                        true
                    },
                }
            },
            FsOp::CreateCollectionDir { db, collection } => {
                match self.db_position(db.as_str()) {
                    Some(i) => {
                        let found = find_coll_exec(&self.dbs[i].colls, collection.as_str());
                        match found {
                            Some(_) => {
                                proof {
                                    assert(self@ =~~= spec_apply(old(self)@, op@).unwrap());
                                }
                                true
                            },
                            None => {
                                let c = CollDir { name: collection.clone(), files: Vec::new() };
                                let mut d = self.dbs.remove(i);
                                d.colls.push(c);
                                self.dbs.insert(i, d);
                                proof {
                                    assert(self@ =~~= spec_apply(old(self)@, op@).unwrap());
                                }
                                true
                            },
                        }
                    },
                    None => {
                        let c = CollDir { name: collection.clone(), files: Vec::new() };
                        let mut colls = Vec::new();
                        colls.push(c);
                        let d = DbDir { name: db.clone(), colls };
                        self.dbs.push(d);
                        proof {
                            assert(self@ =~~= spec_apply(old(self)@, op@).unwrap());
                        }
                        true
                    },
                }
            },
            FsOp::RemoveDbDir { db } => {
                match self.db_position(db.as_str()) {
                    Some(i) => {
                        self.dbs.remove(i);
                        proof {
                            assert(self@ =~~= spec_apply(old(self)@, op@).unwrap());
                        }
                        true
                    },
                    None => false,
                }
            },
            FsOp::RemoveCollectionDir { db, collection } => {
                match self.db_position(db.as_str()) {
                    Some(i) => {
                        let found = find_coll_exec(&self.dbs[i].colls, collection.as_str());
                        match found {
                            Some(j) => {
                                let mut d = self.dbs.remove(i);
                                d.colls.remove(j);
                                self.dbs.insert(i, d);
                                proof {
                                    assert(self@ =~~= spec_apply(old(self)@, op@).unwrap());
                                }
                                true
                            },
                            None => false,
                        }
                    },
                    None => false,
                }
            },
        }
    }

    /// Whether a database directory of this name is in the snapshot.
    pub fn contains_db(&self, n: &str) -> (r: bool)
        ensures
            r == self@.has_db(n@),
    {
        self.db_position(n).is_some()
    }

    /// Index of the database directory named `n`, if any.
    pub fn db_position(&self, n: &str) -> (r: Option<usize>)
        ensures
            match r {
                Some(i) => self@.db_index(n@) == i && i < self.dbs@.len(),
                None => self@.db_index(n@) == -1,
            },
    {
        let len = self.dbs.len();
        let mut i: usize = 0;
        while i < len
            invariant
                len == self.dbs@.len(),
                i <= len,
                find_db(self@.dbs, n@, 0) == find_db(self@.dbs, n@, i as int),
            decreases len - i,
        {
            if crate::text::str_eq(self.dbs[i].name.as_str(), n) {
                return Some(i);
            }
            i += 1;
        }
        None
    }
}

/// Index of the collection directory named `n`, if any.
fn find_coll_exec(colls: &Vec<CollDir>, n: &str) -> (r: Option<usize>)
    ensures
        match r {
            Some(i) => find_coll(colls@.map_values(|c: CollDir| c@), n@, 0) == i && i
                < colls@.len(),
            None => find_coll(colls@.map_values(|c: CollDir| c@), n@, 0) == -1,
        },
{
    let len = colls.len();
    let mut i: usize = 0;
    while i < len
        invariant
            len == colls@.len(),
            i <= len,
            find_coll(colls@.map_values(|c: CollDir| c@), n@, 0) == find_coll(
                colls@.map_values(|c: CollDir| c@),
                n@,
                i as int,
            ),
        decreases len - i,
    {
        if crate::text::str_eq(colls[i].name.as_str(), n) {
            return Some(i);
        }
        i += 1;
    }
    None
}

} // verus!
