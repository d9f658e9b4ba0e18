use crate::sync::{doc_texts, new_doc, no_texts};
use std::collections::HashMap;
use vstd::prelude::*;
use yrs::Doc;

verus! {

broadcast use vstd::std_specs::hash::group_hash_axioms;

/// Replicated documents, by document identifier.
#[derive(Clone)]
pub struct DocBackend {
    docs: HashMap<i64, Doc>,
}

impl View for DocBackend {
    type V = Map<i64, Map<Seq<char>, Seq<char>>>;

    /// For each document, its shared texts.
    closed spec fn view(&self) -> Map<i64, Map<Seq<char>, Seq<char>>> {
        self.docs@.map_values(|doc: Doc| doc_texts(doc))
    }
}

impl DocBackend {
    /// The backend with the documents 1 and 2, both without text.
    pub fn new() -> (backend: Self)
        ensures
            backend@ == map![1i64 => no_texts(), 2i64 => no_texts()],
    {
        let mut docs: HashMap<i64, Doc> = HashMap::new();
        docs.insert(1, new_doc());
        docs.insert(2, new_doc());
        DocBackend { docs }
    }
}

impl Default for DocBackend {
    /// A backend without documents.
    fn default() -> (backend: Self)
        ensures
            backend@ == Map::<i64, Map<Seq<char>, Seq<char>>>::empty(),
    {
        DocBackend { docs: HashMap::new() }
    }
}

} // verus!
