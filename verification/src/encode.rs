//! Encoding typed values as raw documents.

use crate::document::{
    bool_value, doc_of, docs_of, list_value, null_value, text_value, unsigned_value, Doc,
};
use serde_json::Value;
use vstd::prelude::*;

verus! {

/// A type whose values can be written as a raw document.
pub trait Encode {
    /// The tree of the document that this value is written as.
    spec fn doc(&self) -> Doc;

    /// Writes this value as a raw document.
    fn encode(&self) -> (r: Value)
        ensures
            doc_of(r) == self.doc(),
    ;
}

impl Encode for String {
    open spec fn doc(&self) -> Doc {
        Doc::Text(self@)
    }

    fn encode(&self) -> (r: Value) {
        text_value(self.clone())
    }
}

impl Encode for bool {
    open spec fn doc(&self) -> Doc {
        Doc::Bool(*self)
    }

    fn encode(&self) -> (r: Value) {
        bool_value(*self)
    }
}

impl Encode for u64 {
    open spec fn doc(&self) -> Doc {
        Doc::Unsigned(*self)
    }

    fn encode(&self) -> (r: Value) {
        unsigned_value(*self)
    }
}

impl Encode for u32 {
    open spec fn doc(&self) -> Doc {
        Doc::Unsigned(*self as u64)
    }

    fn encode(&self) -> (r: Value) {
        unsigned_value(*self as u64)
    }
}

impl Encode for u16 {
    open spec fn doc(&self) -> Doc {
        Doc::Unsigned(*self as u64)
    }

    fn encode(&self) -> (r: Value) {
        unsigned_value(*self as u64)
    }
}

/// A value that is not given is written as null.
impl<T: Encode> Encode for Option<T> {
    open spec fn doc(&self) -> Doc {
        match self {
            Some(inner) => inner.doc(),
            None => Doc::Null,
        }
    }

    fn encode(&self) -> (r: Value) {
        match self {
            Some(inner) => inner.encode(),
            None => null_value(),
        }
    }
}

/// A vector is written as a list of its elements, in order.
impl<T: Encode> Encode for Vec<T> {
    open spec fn doc(&self) -> Doc {
        Doc::List(Seq::new(self@.len(), |i: int| self@[i].doc()))
    }

    fn encode(&self) -> (r: Value) {
        let mut items: Vec<Value> = Vec::new();
        let mut i: usize = 0;
        while i < self.len()
            invariant
                i <= self@.len(),
                items@.len() == i,
                forall|j: int| 0 <= j < i ==> doc_of(items@[j]) == self@[j].doc(),
            decreases self@.len() - i,
        {
            items.push(self[i].encode());
            i += 1;
        }
        assert(docs_of(items@) =~= Seq::new(self@.len(), |i: int| self@[i].doc()));
        list_value(items)
    }
}

} // verus!
