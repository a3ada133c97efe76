//! Laws of the interpreter: properties that hold of whole command
//! sequences, stated over the spec-level interpreter and the store model
//! and proved once and for all.

use crate::lexer::{
    TokenV, ident_run_end, is_ident_start, lemma_ident_run_end_bounds, spec_tokenize,
    spec_tokens_from,
};
use crate::session::{filter_control_from, is_control, spec_command_tokens};
use crate::semantics::{
    DatabaseV, find_collection, has_collection_named, help_text, msg_already_exists,
    msg_created_db, msg_db_not_found, msg_dropped_db, msg_no_collections, msg_no_dbs, out,
    spec_listing, spec_process, spec_rebuild_from,
};
use crate::store::{
    CollDirV, DbDirV, FsOpV, StoreV, find_coll, find_db, lemma_find_coll_properties,
    lemma_find_db_properties, spec_apply,
};
use vstd::prelude::*;

verus! {

/// The token shape of `CREATE DB <x>` after whitespace filtering.
pub open spec fn is_create_db_cmd(toks: Seq<TokenV>, x: Seq<char>) -> bool {
    &&& toks.len() == 3
    &&& toks[0].token_type is Create
    &&& toks[1].token_type is Db
    &&& toks[2].token_type is Identifier
    &&& toks[2].slice == x
}

/// The token shape of `CREATE COLLECTION <x>` after whitespace filtering.
pub open spec fn is_create_collection_cmd(toks: Seq<TokenV>, x: Seq<char>) -> bool {
    &&& toks.len() == 3
    &&& toks[0].token_type is Create
    &&& toks[1].token_type is Collection
    &&& toks[2].token_type is Identifier
    &&& toks[2].slice == x
}

/// The token shape of `DROP DB <x>` after whitespace filtering.
pub open spec fn is_drop_db_cmd(toks: Seq<TokenV>, x: Seq<char>) -> bool {
    &&& toks.len() == 3
    &&& toks[0].token_type is Drop
    &&& toks[1].token_type is Db
    &&& toks[2].token_type is Identifier
    &&& toks[2].slice == x
}

/// The token shape of `USE <x>` after whitespace filtering.
pub open spec fn is_use_cmd(toks: Seq<TokenV>, x: Seq<char>) -> bool {
    &&& toks.len() == 2
    &&& toks[0].token_type is Use
    &&& toks[1].token_type is Identifier
    &&& toks[1].slice == x
}

/// The token shape of `SHOW DBS` after whitespace filtering.
pub open spec fn is_show_dbs_cmd(toks: Seq<TokenV>) -> bool {
    &&& toks.len() == 2
    &&& toks[0].token_type is Show
    &&& toks[1].token_type is Dbs
}

/// The token shape of `SHOW <x>` after whitespace filtering.
pub open spec fn is_show_cmd(toks: Seq<TokenV>, x: Seq<char>) -> bool {
    &&& toks.len() == 2
    &&& toks[0].token_type is Show
    &&& toks[1].token_type is Identifier
    &&& toks[1].slice == x
}

/// How many of the names equal `x`, from index `i` on.
pub open spec fn count_name_from(names: Seq<Seq<char>>, x: Seq<char>, i: int) -> nat
    decreases names.len() - i,
{
    if !(0 <= i < names.len()) {
        0
    } else {
        (if names[i] == x {
            1 as nat
        } else {
            0 as nat
        }) + count_name_from(names, x, i + 1)
    }
}

/// How many of the names equal `x`.
pub open spec fn count_name(names: Seq<Seq<char>>, x: Seq<char>) -> nat {
    count_name_from(names, x, 0)
}

pub proof fn lemma_count_all_neq(names: Seq<Seq<char>>, x: Seq<char>, i: int)
    requires
        0 <= i <= names.len(),
        forall|k: int| i <= k < names.len() ==> names[k] != x,
    ensures
        count_name_from(names, x, i) == 0,
    decreases names.len() - i,
{
    if i < names.len() {
        lemma_count_all_neq(names, x, i + 1);
    }
}

pub proof fn lemma_count_push(names: Seq<Seq<char>>, x: Seq<char>, y: Seq<char>, i: int)
    requires
        0 <= i <= names.len(),
    ensures
        count_name_from(names.push(y), x, i) == count_name_from(names, x, i) + (if y == x {
            1 as nat
        } else {
            0 as nat
        }),
    decreases names.len() - i,
{
    if i < names.len() {
        lemma_count_push(names, x, y, i + 1);
    } else {
        assert(count_name_from(names.push(y), x, i + 1) == 0);
    }
}

pub proof fn lemma_find_collection_properties(colls: Seq<crate::collection::CollectionV>, n: Seq<
    char,
>, i: int)
    requires
        0 <= i <= colls.len(),
    ensures
        find_collection(colls, n, i) == -1 || find_collection(colls, n, i) >= i,
        find_collection(colls, n, i) == -1 ==> forall|k: int| i <= k < colls.len() ==> colls[k].name
            != n,
        find_collection(colls, n, i) >= 0 ==> i <= find_collection(colls, n, i) < colls.len()
            && colls[find_collection(colls, n, i)].name == n,
    decreases colls.len() - i,
{
    if i < colls.len() && colls[i].name != n {
        lemma_find_collection_properties(colls, n, i + 1);
    }
}

pub proof fn lemma_find_db_none(dbs: Seq<DbDirV>, n: Seq<char>, i: int)
    requires
        0 <= i <= dbs.len(),
        forall|k: int| i <= k < dbs.len() ==> dbs[k].name != n,
    ensures
        find_db(dbs, n, i) == -1,
    decreases dbs.len() - i,
{
    if i < dbs.len() {
        lemma_find_db_none(dbs, n, i + 1);
    }
}

pub proof fn lemma_find_collection_none(colls: Seq<crate::collection::CollectionV>, n: Seq<
    char,
>, i: int)
    requires
        0 <= i <= colls.len(),
        forall|k: int| i <= k < colls.len() ==> colls[k].name != n,
    ensures
        find_collection(colls, n, i) == -1,
    decreases colls.len() - i,
{
    if i < colls.len() {
        lemma_find_collection_none(colls, n, i + 1);
    }
}

/// Every name in a rebuilt collection set is the name of one of the
/// scanned collection directories; a name absent from the directories is
/// absent from the rebuilt set.
pub proof fn lemma_rebuild_no_name(
    store_path: Seq<char>,
    db_name: Seq<char>,
    colls: Seq<CollDirV>,
    i: int,
    now: Seq<char>,
    n: Seq<char>,
)
    requires
        0 <= i <= colls.len(),
        forall|k: int| i <= k < colls.len() ==> colls[k].name != n,
    ensures
        forall|j: int|
            0 <= j < spec_rebuild_from(store_path, db_name, colls, i, now).len() ==> (
            #[trigger] spec_rebuild_from(store_path, db_name, colls, i, now)[j]).name != n,
    decreases colls.len() - i,
{
    if i < colls.len() {
        lemma_rebuild_no_name(store_path, db_name, colls, i + 1, now, n);
        let rest = spec_rebuild_from(store_path, db_name, colls, i + 1, now);
        let whole = spec_rebuild_from(store_path, db_name, colls, i, now);
        if colls[i].files.len() == 0 {
            assert(whole == rest);
        } else {
            assert forall|j: int| 0 <= j < whole.len() implies (#[trigger] whole[j]).name != n by {
                if j == 0 {
                    assert(whole[0].name == colls[i].name);
                } else {
                    assert(whole[j] == rest[j - 1]);
                }
            }
        }
    }
}

/// After a successful `CREATE DB x`, `SHOW DBS` on the resulting tree
/// lists `x` exactly once: the creation adds the one directory, and the
/// listing prints each directory name once.
pub proof fn lemma_create_db_then_show_dbs(
    db: DatabaseV,
    db2: DatabaseV,
    store: StoreV,
    x: Seq<char>,
    toks_create: Seq<TokenV>,
    toks_show: Seq<TokenV>,
    now1: Seq<char>,
    now2: Seq<char>,
)
    requires
        !store.has_db(x),
        is_create_db_cmd(toks_create, x),
        is_show_dbs_cmd(toks_show),
    ensures
        ({
            let r1 = spec_process(db, store, toks_create, now1);
            &&& r1.0 == db
            &&& r1.1.output == msg_created_db(x)
            &&& r1.1.ops == seq![FsOpV::CreateDbDir { db: x }]
            &&& spec_apply(store, r1.1.ops[0]) matches Some(store1) && {
                let r2 = spec_process(db2, store1, toks_show, now2);
                &&& count_name(store1.db_names(), x) == 1
                &&& r2.0 == db2
                &&& r2.1.output == spec_listing(store1.db_names(), msg_no_dbs())
            }
        }),
{
    let r1 = spec_process(db, store, toks_create, now1);
    assert(r1.1.ops =~= seq![FsOpV::CreateDbDir { db: x }]);
    let store1 = spec_apply(store, r1.1.ops[0]).unwrap();
    let d = DbDirV { name: x, colls: Seq::empty() };
    assert(store1.dbs == store.dbs.push(d));
    assert(store1.db_names() =~= store.db_names().push(x));
    lemma_find_db_properties(store.dbs, x, 0);
    assert forall|k: int| 0 <= k < store.db_names().len() implies store.db_names()[k] != x by {
        assert(store.db_names()[k] == store.dbs[k].name);
    }
    lemma_count_all_neq(store.db_names(), x, 0);
    lemma_count_push(store.db_names(), x, x, 0);
    assert(count_name(store1.db_names(), x) == 1);
}

/// A second `CREATE DB x` in a row replies with the already-exists message
/// and performs no directory operation: the tree is not touched again.
pub proof fn lemma_create_db_twice(
    db: DatabaseV,
    store: StoreV,
    x: Seq<char>,
    toks: Seq<TokenV>,
    now1: Seq<char>,
    now2: Seq<char>,
)
    requires
        !store.has_db(x),
        is_create_db_cmd(toks, x),
    ensures
        ({
            let r1 = spec_process(db, store, toks, now1);
            &&& r1.1.ops == seq![FsOpV::CreateDbDir { db: x }]
            &&& spec_apply(store, r1.1.ops[0]) matches Some(store1) && {
                let r2 = spec_process(r1.0, store1, toks, now2);
                &&& r2.0 == r1.0
                &&& r2.1.output == msg_already_exists(x)
                &&& r2.1.ops == Seq::<FsOpV>::empty()
            }
        }),
{
    let r1 = spec_process(db, store, toks, now1);
    assert(r1.1.ops =~= seq![FsOpV::CreateDbDir { db: x }]);
    let store1 = spec_apply(store, r1.1.ops[0]).unwrap();
    let d = DbDirV { name: x, colls: Seq::empty() };
    assert(store1.dbs == store.dbs.push(d));
    assert(store1.dbs[store.dbs.len() as int].name == x);
    lemma_find_db_properties(store1.dbs, x, 0);
    if find_db(store1.dbs, x, 0) == -1 {
        assert(store1.dbs[store.dbs.len() as int].name != x);
        assert(false);
    }
    assert(find_db(store1.dbs, x, 0) >= 0);
    assert(store1.has_db(x));
    let r2 = spec_process(r1.0, store1, toks, now2);
    assert(r2.1.ops =~= Seq::<FsOpV>::empty());
}

/// `USE x` for a database that is not on disk replies with the not-found
/// message and leaves the whole session state untouched.
pub proof fn lemma_use_missing_db_unchanged(
    db: DatabaseV,
    store: StoreV,
    x: Seq<char>,
    toks: Seq<TokenV>,
    now: Seq<char>,
)
    requires
        !store.has_db(x),
        is_use_cmd(toks, x),
    ensures
        spec_process(db, store, toks, now) == (db, out(msg_db_not_found(), Seq::<FsOpV>::empty())),
{
}

/// `DROP DB x` clears the whole session context — name, path, selected
/// collection index, and collection set — and, where the directory existed
/// and names are distinct, the resulting tree no longer holds it.
pub proof fn lemma_drop_db_clears_session(
    db: DatabaseV,
    store: StoreV,
    x: Seq<char>,
    toks: Seq<TokenV>,
    now: Seq<char>,
)
    requires
        store.wf(),
        is_drop_db_cmd(toks, x),
    ensures
        ({
            let r = spec_process(db, store, toks, now);
            &&& r.0.name == Seq::<char>::empty()
            &&& r.0.path == Seq::<char>::empty()
            &&& r.0.current_collection == 0
            &&& r.0.collections == Seq::<crate::collection::CollectionV>::empty()
            &&& r.0.config == db.config
            &&& r.1.output == msg_dropped_db(x)
            &&& r.1.ops == seq![FsOpV::RemoveDbDir { db: x }]
            &&& store.has_db(x) ==> (spec_apply(store, r.1.ops[0]) matches Some(store1)
                && !store1.has_db(x))
        }),
{
    let r = spec_process(db, store, toks, now);
    assert(r.1.ops =~= seq![FsOpV::RemoveDbDir { db: x }]);
    if store.has_db(x) {
        let i = store.db_index(x);
        lemma_find_db_properties(store.dbs, x, 0);
        let store1 = spec_apply(store, r.1.ops[0]).unwrap();
        assert(store1.dbs == store.dbs.remove(i));
        assert forall|k: int| 0 <= k < store1.dbs.len() implies (#[trigger] store1.dbs[k]).name
            != x by {
            let names = store.db_names();
            if k < i {
                assert(store1.dbs[k] == store.dbs[k]);
                if store.dbs[k].name == x {
                    assert(names[k] == x && names[i] == x);
                }
            } else {
                assert(store1.dbs[k] == store.dbs[k + 1]);
                if store.dbs[k + 1].name == x {
                    assert(names[k + 1] == x && names[i] == x);
                }
            }
        }
        lemma_find_db_none(store1.dbs, x, 0);
    }
}

/// `HELP` replies with one fixed text, identical whatever the session
/// state, the store tree, and the timestamp, and changes nothing.
pub proof fn lemma_help_state_independent(
    db_a: DatabaseV,
    db_b: DatabaseV,
    store_a: StoreV,
    store_b: StoreV,
    toks: Seq<TokenV>,
    now_a: Seq<char>,
    now_b: Seq<char>,
)
    requires
        toks.len() >= 1,
        toks[0].token_type is Help,
    ensures
        spec_process(db_a, store_a, toks, now_a).1.output == help_text(),
        spec_process(db_a, store_a, toks, now_a).1.output == spec_process(
            db_b,
            store_b,
            toks,
            now_b,
        ).1.output,
        spec_process(db_a, store_a, toks, now_a).0 == db_a,
        spec_process(db_a, store_a, toks, now_a).1.ops == Seq::<FsOpV>::empty(),
{
}

/// Two directory listings with the same names at every index are searched
/// alike.
pub proof fn lemma_find_db_same_names(dbs1: Seq<DbDirV>, dbs2: Seq<DbDirV>, n: Seq<char>, i: int)
    requires
        0 <= i <= dbs1.len(),
        dbs1.len() == dbs2.len(),
        forall|k: int| 0 <= k < dbs1.len() ==> (#[trigger] dbs1[k]).name == dbs2[k].name,
    ensures
        find_db(dbs1, n, i) == find_db(dbs2, n, i),
    decreases dbs1.len() - i,
{
    if i < dbs1.len() && dbs1[i].name != n {
        lemma_find_db_same_names(dbs1, dbs2, n, i + 1);
    }
}

/// Round trip: `CREATE DB a`, `USE a`, `CREATE COLLECTION c`, `USE a`
/// again, then `SHOW a`. The collection directory is discoverable by the
/// fresh scan — `SHOW a` lists `c`, and it is the only collection of `a` on
/// disk. The rescan itself rebuilds an empty in-memory collection set,
/// because the new directory holds no files yet and a fileless directory
/// yields no collection entry.
pub proof fn lemma_create_use_create_rescan_show(
    db: DatabaseV,
    store: StoreV,
    a: Seq<char>,
    c: Seq<char>,
    toks_create_db: Seq<TokenV>,
    toks_use: Seq<TokenV>,
    toks_create_coll: Seq<TokenV>,
    toks_show: Seq<TokenV>,
    now1: Seq<char>,
    now2: Seq<char>,
    now3: Seq<char>,
    now4: Seq<char>,
    now5: Seq<char>,
)
    requires
        !store.has_db(a),
        a.len() > 0,
        is_create_db_cmd(toks_create_db, a),
        is_use_cmd(toks_use, a),
        is_create_collection_cmd(toks_create_coll, c),
        is_show_cmd(toks_show, a),
    ensures
        ({
            let r1 = spec_process(db, store, toks_create_db, now1);
            let store1 = spec_apply(store, FsOpV::CreateDbDir { db: a }).unwrap();
            let r2 = spec_process(r1.0, store1, toks_use, now2);
            let r3 = spec_process(r2.0, store1, toks_create_coll, now3);
            let store2 = spec_apply(store1, FsOpV::CreateCollectionDir {
                db: a,
                collection: c,
            }).unwrap();
            let r4 = spec_process(r3.0, store2, toks_use, now4);
            let r5 = spec_process(r4.0, store2, toks_show, now5);
            &&& r1.1.ops == seq![FsOpV::CreateDbDir { db: a }]
            &&& r2.0.name == a
            &&& r3.1.ops == seq![FsOpV::CreateCollectionDir { db: a, collection: c }]
            &&& store2.has_db(a)
            &&& store2.db_at(a).coll_names() == seq![c]
            &&& count_name(store2.db_at(a).coll_names(), c) == 1
            &&& r4.0.collections == Seq::<crate::collection::CollectionV>::empty()
            &&& r5.1.output == spec_listing(seq![c], msg_no_collections())
        }),
{
    let r1 = spec_process(db, store, toks_create_db, now1);
    assert(r1.1.ops =~= seq![FsOpV::CreateDbDir { db: a }]);
    let store1 = spec_apply(store, FsOpV::CreateDbDir { db: a }).unwrap();
    let d0 = DbDirV { name: a, colls: Seq::empty() };
    assert(store1.dbs == store.dbs.push(d0));
    let len0 = store.dbs.len() as int;

    lemma_find_db_properties(store.dbs, a, 0);
    lemma_find_db_properties(store1.dbs, a, 0);
    let j1 = find_db(store1.dbs, a, 0);
    assert(store1.dbs[len0].name == a);
    if j1 == -1 {
        assert(false);
    }
    if j1 < len0 {
        assert(store1.dbs[j1] == store.dbs[j1]);
        assert(store.dbs[j1].name != a);
        assert(false);
    }
    assert(j1 == len0);
    assert(store1.db_at(a) == d0);

    let r2 = spec_process(r1.0, store1, toks_use, now2);
    assert(spec_rebuild_from(db.config.store_path, a, d0.colls, 0, now2) =~= Seq::<
        crate::collection::CollectionV,
    >::empty());
    assert(r2.0.name == a);
    assert(r2.0.collections =~= Seq::<crate::collection::CollectionV>::empty());

    let r3 = spec_process(r2.0, store1, toks_create_coll, now3);
    assert(find_collection(r2.0.collections, c, 0) == -1);
    assert(r3.1.ops =~= seq![FsOpV::CreateCollectionDir { db: a, collection: c }]);

    let op2 = FsOpV::CreateCollectionDir { db: a, collection: c };
    assert(find_coll(d0.colls, c, 0) == -1);
    let store2 = spec_apply(store1, op2).unwrap();
    let cd = CollDirV { name: c, files: Seq::empty() };
    let d1 = DbDirV { name: a, colls: seq![cd] };
    assert(d0.colls.push(cd) =~= seq![cd]);
    assert(store2.dbs == store1.dbs.update(len0, d1));

    lemma_find_db_properties(store2.dbs, a, 0);
    let j2 = find_db(store2.dbs, a, 0);
    assert(store2.dbs[len0].name == a);
    if j2 == -1 {
        assert(false);
    }
    if j2 < len0 {
        assert(store2.dbs[j2] == store.dbs[j2]);
        assert(false);
    }
    assert(j2 == len0);
    assert(store2.db_at(a) == d1);
    assert(d1.coll_names() =~= seq![c]);

    let r4 = spec_process(r3.0, store2, toks_use, now4);
    assert(spec_rebuild_from(db.config.store_path, a, d1.colls, 1, now4) =~= Seq::<
        crate::collection::CollectionV,
    >::empty());
    assert(r4.0.collections =~= Seq::<crate::collection::CollectionV>::empty());

    let r5 = spec_process(r4.0, store2, toks_show, now5);
    assert(r5.1.output == spec_listing(d1.coll_names(), msg_no_collections()));
    assert(count_name_from(seq![c], c, 1) == 0);
    assert(count_name(seq![c], c) == 1);
}

/// Two sessions, each starting from the same snapshot of state and store,
/// run `USE a` and then `CREATE COLLECTION` with distinct fresh names. Both
/// directory operations land, in either order here taken as first `c1` then
/// `c2`, so the tree — the filesystem truth — ends up holding both
/// collections; the in-memory state committed last (the second session's,
/// under whole-value last-writer-wins) holds `c2` but has lost `c1`.
pub proof fn lemma_concurrent_creates_both_on_disk(
    db: DatabaseV,
    store: StoreV,
    a: Seq<char>,
    c1: Seq<char>,
    c2: Seq<char>,
    toks_use: Seq<TokenV>,
    toks_cc1: Seq<TokenV>,
    toks_cc2: Seq<TokenV>,
    now1: Seq<char>,
    now2: Seq<char>,
    now3: Seq<char>,
    now4: Seq<char>,
)
    requires
        store.has_db(a),
        a.len() > 0,
        c1 != c2,
        !store.db_at(a).has_coll(c1),
        !store.db_at(a).has_coll(c2),
        is_use_cmd(toks_use, a),
        is_create_collection_cmd(toks_cc1, c1),
        is_create_collection_cmd(toks_cc2, c2),
    ensures
        ({
            let s1_use = spec_process(db, store, toks_use, now1);
            let s1 = spec_process(s1_use.0, store, toks_cc1, now2);
            let s2_use = spec_process(db, store, toks_use, now3);
            let s2 = spec_process(s2_use.0, store, toks_cc2, now4);
            &&& s1.1.ops == seq![FsOpV::CreateCollectionDir { db: a, collection: c1 }]
            &&& s2.1.ops == seq![FsOpV::CreateCollectionDir { db: a, collection: c2 }]
            &&& spec_apply(store, s1.1.ops[0]) matches Some(store1) && (spec_apply(
                store1,
                s2.1.ops[0],
            ) matches Some(store2) && {
                &&& store2.has_db(a)
                &&& store2.db_at(a).has_coll(c1)
                &&& store2.db_at(a).has_coll(c2)
            })
            &&& has_collection_named(s2.0.collections, c2)
            &&& !has_collection_named(s2.0.collections, c1)
        }),
{
    let i = store.db_index(a);
    lemma_find_db_properties(store.dbs, a, 0);
    let d = store.dbs[i];
    lemma_find_coll_properties(d.colls, c1, 0);
    lemma_find_coll_properties(d.colls, c2, 0);

    let s1_use = spec_process(db, store, toks_use, now1);
    assert(s1_use.0.name == a);
    let s1 = spec_process(s1_use.0, store, toks_cc1, now2);
    assert(s1.1.ops =~= seq![FsOpV::CreateCollectionDir { db: a, collection: c1 }]);
    let s2_use = spec_process(db, store, toks_use, now3);
    let s2 = spec_process(s2_use.0, store, toks_cc2, now4);
    assert(s2.1.ops =~= seq![FsOpV::CreateCollectionDir { db: a, collection: c2 }]);

    // The second session's committed collections: the rescan of `a`'s
    // directories (none named c1 or c2), plus the new `c2` entry.
    let rebuilt = spec_rebuild_from(db.config.store_path, d.name, d.colls, 0, now3);
    assert(s2_use.0.collections == rebuilt);
    lemma_rebuild_no_name(db.config.store_path, d.name, d.colls, 0, now3, c2);
    lemma_find_collection_none(rebuilt, c2, 0);
    assert(!has_collection_named(rebuilt, c2));
    let pushed = s2.0.collections;
    assert(pushed.len() == rebuilt.len() + 1);
    assert(pushed[rebuilt.len() as int].name == c2);
    lemma_find_collection_properties(pushed, c2, 0);
    if find_collection(pushed, c2, 0) == -1 {
        assert(false);
    }
    assert(has_collection_named(s2.0.collections, c2));

    lemma_rebuild_no_name(db.config.store_path, d.name, d.colls, 0, now3, c1);
    assert forall|k: int| 0 <= k < pushed.len() implies (#[trigger] pushed[k]).name != c1 by {
        if k < rebuilt.len() {
            assert(pushed[k] == rebuilt[k]);
        }
    }
    lemma_find_collection_none(pushed, c1, 0);
    assert(!has_collection_named(s2.0.collections, c1));

    // Both operations land on the tree.
    let op1 = FsOpV::CreateCollectionDir { db: a, collection: c1 };
    let op2 = FsOpV::CreateCollectionDir { db: a, collection: c2 };
    let store1 = spec_apply(store, op1).unwrap();
    let cd1 = CollDirV { name: c1, files: Seq::empty() };
    let d1 = DbDirV { name: a, colls: d.colls.push(cd1) };
    assert(d.name == a);
    assert(d1 =~~= (DbDirV { name: d.name, colls: d.colls.push(cd1) }));
    assert(store1.dbs == store.dbs.update(i, d1));

    assert forall|k: int| 0 <= k < store.dbs.len() implies (#[trigger] store1.dbs[k]).name
        == store.dbs[k].name by {
        if k != i {
            assert(store1.dbs[k] == store.dbs[k]);
        }
    }
    lemma_find_db_same_names(store1.dbs, store.dbs, a, 0);
    assert(store1.db_index(a) == i);
    assert(store1.db_at(a) == d1);

    lemma_find_coll_properties(d1.colls, c2, 0);
    let jc2 = find_coll(d1.colls, c2, 0);
    if jc2 >= 0 {
        if jc2 < d.colls.len() {
            assert(d1.colls[jc2] == d.colls[jc2]);
            assert(false);
        }
        assert(d1.colls[jc2] == cd1);
        assert(false);
    }
    assert(!d1.has_coll(c2));
    let store2 = spec_apply(store1, op2).unwrap();
    let cd2 = CollDirV { name: c2, files: Seq::empty() };
    let d2 = DbDirV { name: a, colls: d1.colls.push(cd2) };
    assert(d2 =~~= (DbDirV { name: d1.name, colls: d1.colls.push(cd2) }));
    assert(store2.dbs == store1.dbs.update(i, d2));

    assert forall|k: int| 0 <= k < store1.dbs.len() implies (#[trigger] store2.dbs[k]).name
        == store1.dbs[k].name by {
        if k != i {
            assert(store2.dbs[k] == store1.dbs[k]);
        }
    }
    lemma_find_db_same_names(store2.dbs, store1.dbs, a, 0);
    assert(store2.db_index(a) == i);
    assert(store2.db_at(a) == d2);

    // Both names are in the final directory listing.
    assert(d2.colls[d.colls.len() as int] == cd1);
    assert(d2.colls[d.colls.len() as int + 1] == cd2);
    lemma_find_coll_properties(d2.colls, c1, 0);
    if find_coll(d2.colls, c1, 0) == -1 {
        assert(d2.colls[d.colls.len() as int].name != c1);
        assert(false);
    }
    lemma_find_coll_properties(d2.colls, c2, 0);
    if find_coll(d2.colls, c2, 0) == -1 {
        assert(d2.colls[d.colls.len() as int + 1].name != c2);
        assert(false);
    }
    assert(store2.db_at(a).has_coll(c1) && store2.db_at(a).has_coll(c2));
}

/// Every token the lexer yields carries at least one character of text.
pub proof fn lemma_lexed_slices_nonempty(s: Seq<char>, i: int, line: int, col: int)
    ensures
        forall|j: int|
            0 <= j < spec_tokens_from(s, i, line, col).len() ==> (#[trigger] spec_tokens_from(
                s,
                i,
                line,
                col,
            )[j]).slice.len() >= 1,
    decreases s.len() - i,
{
    if 0 <= i < s.len() {
        let c = s[i];
        if c == '\n' {
            lemma_lexed_slices_nonempty(s, i + 1, line + 1, 0);
        } else if c == ' ' || c == '\t' || c == '\0' {
            lemma_lexed_slices_nonempty(s, i + 1, line, col + 1);
        } else if is_ident_start(c) {
            lemma_ident_run_end_bounds(s, i + 1);
            let j = ident_run_end(s, i + 1);
            lemma_lexed_slices_nonempty(s, j, line, col + (j - i));
        } else {
            lemma_lexed_slices_nonempty(s, i + 1, line, col + 1);
        }
    }
}

/// Filtering the whitespace tokens away keeps only tokens of the input.
pub proof fn lemma_filter_control_members(toks: Seq<TokenV>, i: int)
    requires
        0 <= i <= toks.len(),
    ensures
        forall|j: int|
            0 <= j < filter_control_from(toks, i).len() ==> exists|k: int|
                i <= k < toks.len() && #[trigger] filter_control_from(toks, i)[j] == toks[k],
    decreases toks.len() - i,
{
    if i < toks.len() {
        lemma_filter_control_members(toks, i + 1);
        let whole = filter_control_from(toks, i);
        let rest = filter_control_from(toks, i + 1);
        if is_control(toks[i].token_type) {
            assert(whole == rest);
        } else {
            assert forall|j: int| 0 <= j < whole.len() implies exists|k: int|
                i <= k < toks.len() && #[trigger] whole[j] == toks[k] by {
                if j == 0 {
                    assert(whole[0] == toks[i]);
                } else {
                    assert(whole[j] == rest[j - 1]);
                }
            }
        }
    }
}

/// The tokens a command string is interpreted by all carry text, so in
/// particular every identifier's text is non-empty: the hypothesis of
/// [`lemma_process_preserves_wf`] holds of every lexed command.
pub proof fn lemma_command_tokens_nonempty(input: Seq<char>)
    ensures
        forall|k: int|
            0 <= k < spec_command_tokens(input).len() ==> (#[trigger] spec_command_tokens(
                input,
            )[k]).slice.len() > 0,
{
    lemma_lexed_slices_nonempty(input, 0, 0, 0);
    lemma_filter_control_members(spec_tokenize(input), 0);
}

/// Every command preserves the session-state invariant: a state with no
/// selected database keeps a zero collection index and no collections. The
/// tokens are as the lexer makes them: an identifier's text is never empty.
pub proof fn lemma_process_preserves_wf(
    db: DatabaseV,
    store: StoreV,
    toks: Seq<TokenV>,
    now: Seq<char>,
)
    requires
        db.wf(),
        forall|k: int|
            0 <= k < toks.len() ==> ((#[trigger] toks[k].token_type) is Identifier
                ==> toks[k].slice.len() > 0),
    ensures
        spec_process(db, store, toks, now).0.wf(),
{
}

} // verus!
