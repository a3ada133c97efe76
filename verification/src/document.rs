//! Document metadata: one filesystem entry inside a collection directory.

use vstd::prelude::*;

verus! {

/// One document inside a collection: `name` is the filename without its
/// extension, `path` the full filesystem path of the file. A document is
/// never persisted on its own; its existence is the file itself.
#[derive(Clone, Debug, Default, Eq, Hash, PartialEq)]
pub struct Document {
    pub name: String,
    pub path: String,
}

/// Mathematical model of a [`Document`]: both fields as character sequences.
pub struct DocumentV {
    pub name: Seq<char>,
    pub path: Seq<char>,
}

impl View for Document {
    type V = DocumentV;

    open spec fn view(&self) -> DocumentV {
        DocumentV { name: self.name@, path: self.path@ }
    }
}

impl Document {
    /// Value equality, stated on the model (the derived `PartialEq` carries
    /// no specification Verus can use).
    pub fn same_as(&self, o: &Document) -> (r: bool)
        ensures
            r == (self@ == o@),
    {
        let r = crate::text::str_eq(self.name.as_str(), o.name.as_str()) && crate::text::str_eq(
            self.path.as_str(),
            o.path.as_str(),
        );
        proof {
            if self@.name == o@.name && self@.path == o@.path {
                assert(self@ == o@);
            }
        }
        r
    }

    pub fn new(name: String, path: String) -> (d: Document)
        ensures
            d@.name == name@,
            d@.path == path@,
    {
        Document { name, path }
    }
}

} // verus!
