//! Collection metadata: one subdirectory of the active database.

use crate::clock::now_local_timestamp;
use crate::document::{Document, DocumentV};
use vstd::prelude::*;

verus! {

/// One collection: a named group of documents. Collections are identified
/// by `name` and `path`; `created_at` records when this in-memory value was
/// built (collections are rebuilt wholesale on every `USE`).
#[derive(Clone, Debug, Default, Eq, Hash, PartialEq)]
pub struct Collection {
    pub name: String,
    pub path: String,
    pub created_at: String,
    pub documents: Vec<Document>,
}

/// Mathematical model of a [`Collection`].
#[verifier::ext_equal]
pub struct CollectionV {
    pub name: Seq<char>,
    pub path: Seq<char>,
    pub created_at: Seq<char>,
    pub documents: Seq<DocumentV>,
}

impl View for Collection {
    type V = CollectionV;

    open spec fn view(&self) -> CollectionV {
        CollectionV {
            name: self.name@,
            path: self.path@,
            created_at: self.created_at@,
            documents: self.documents@.map_values(|d: Document| d@),
        }
    }
}

impl Collection {
    /// Builds a collection stamped with the given creation time.
    pub fn with_created_at(
        name: String,
        path: String,
        created_at: String,
        documents: Vec<Document>,
    ) -> (c: Collection)
        ensures
            c@ == (CollectionV {
                name: name@,
                path: path@,
                created_at: created_at@,
                documents: documents@.map_values(|d: Document| d@),
            }),
    {
        Collection { name, path, created_at, documents }
    }

    /// Builds a collection stamped with the current local time. Only the
    /// timestamp is left open: it comes from the clock.
    pub fn new(name: String, path: String, documents: Vec<Document>) -> (c: Collection)
        ensures
            c@.name == name@,
            c@.path == path@,
            c@.documents == documents@.map_values(|d: Document| d@),
    {
        let created_at = now_local_timestamp();
        Collection { name, path, created_at, documents }
    }

    /// Value equality, stated on the model (the derived `PartialEq` carries
    /// no specification Verus can use).
    pub fn same_as(&self, o: &Collection) -> (r: bool)
        ensures
            r == (self@ == o@),
    {
        if !crate::text::str_eq(self.name.as_str(), o.name.as_str()) {
            proof {
                if self@ == o@ {
                    assert(self@.name == o@.name);
                }
            }
            return false;
        }
        if !crate::text::str_eq(self.path.as_str(), o.path.as_str()) {
            proof {
                if self@ == o@ {
                    assert(self@.path == o@.path);
                }
            }
            return false;
        }
        if !crate::text::str_eq(self.created_at.as_str(), o.created_at.as_str()) {
            proof {
                if self@ == o@ {
                    assert(self@.created_at == o@.created_at);
                }
            }
            return false;
        }
        let len = self.documents.len();
        if len != o.documents.len() {
            proof {
                if self@ == o@ {
                    assert(self@.documents.len() == o@.documents.len());
                }
            }
            return false;
        }
        let mut i: usize = 0;
        while i < len
            invariant
                len == self.documents@.len(),
                len == o.documents@.len(),
                i <= len,
                forall|k: int| 0 <= k < i ==> self@.documents[k] == o@.documents[k],
            decreases len - i,
        {
            if !self.documents[i].same_as(&o.documents[i]) {
                proof {
                    if self@ == o@ {
                        assert(self@.documents[i as int] == o@.documents[i as int]);
                    }
                }
                return false;
            }
            i += 1;
        }
        proof {
            assert(self@.documents =~= o@.documents);
            assert(self@ =~~= o@);
        }
        true
    }

    /// A copy that Verus knows to be equal to the original in every field.
    pub fn duplicate(&self) -> (c: Collection)
        ensures
            c@ == self@,
    {
        let mut documents: Vec<Document> = Vec::new();
        let mut i: usize = 0;
        let len = self.documents.len();
        while i < len
            invariant
                len == self.documents@.len(),
                i <= len,
                documents@.map_values(|d: Document| d@) =~= self.documents@.map_values(
                    |d: Document| d@,
                ).take(i as int),
            decreases len - i,
        {
            let ghost prev = documents@;
            let d = &self.documents[i];
            documents.push(Document::new(d.name.clone(), d.path.clone()));
            proof {
                let f = |d: Document| d@;
                assert(documents@.map_values(f) =~= prev.map_values(f).push(
                    self.documents@.map_values(f)[i as int],
                ));
                assert(documents@.map_values(f) =~= self.documents@.map_values(f).take(i + 1));
            }
            i += 1;
        }
        proof {
            assert(documents@.map_values(|d: Document| d@) =~= self.documents@.map_values(
                |d: Document| d@,
            ));
        }
        let c = Collection {
            name: self.name.clone(),
            path: self.path.clone(),
            created_at: self.created_at.clone(),
            documents,
        };
        proof {
            assert(c@ =~~= self@);
        }
        c
    }
}

} // verus!
