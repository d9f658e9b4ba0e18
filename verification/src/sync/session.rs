use crate::ident::{document_key, key_text};
use vstd::prelude::*;
use yrs::sync::Awareness;
use yrs::{Doc, Text, Transact};

verus! {

/// Number of pending updates that a session's fan-out channel buffers.
pub const BROADCAST_BUFFER_CAPACITY: usize = 32;

/// `yrs::Doc`, a replicated document. Its merge rules are yrs's own business.
#[verifier::external_type_specification]
#[verifier::external_body]
pub struct ExDoc(Doc);

/// `yrs::sync::Awareness`, a replicated document together with the presence
/// state of the clients that edit it.
#[verifier::external_type_specification]
#[verifier::external_body]
pub struct ExAwareness(Awareness);

/// The shared texts at the root of a document: for each name, the string that
/// `GetString::get_string` reads from the text of that name.
pub uninterp spec fn doc_texts(doc: Doc) -> Map<Seq<char>, Seq<char>>;

/// The shared texts of the document that an awareness instance owns.
pub uninterp spec fn awareness_texts(awareness: Awareness) -> Map<Seq<char>, Seq<char>>;

/// A document without shared texts.
pub open spec fn no_texts() -> Map<Seq<char>, Seq<char>> {
    Map::empty()
}

/// What the text `name` of a document holds, nothing where there is none.
pub open spec fn text_of(texts: Map<Seq<char>, Seq<char>>, name: Seq<char>) -> Seq<char> {
    if texts.contains_key(name) {
        texts[name]
    } else {
        Seq::<char>::empty()
    }
}

/// `Doc::new`: a document of its own, with a client identifier drawn at
/// random and no shared text in it yet.
#[verifier::external_body]
pub(crate) fn new_doc() -> (doc: Doc)
    ensures
        doc_texts(doc) == no_texts(),
{
    Doc::new()
}

/// `Doc::get_or_insert_text`, then `Text::push` inside a transaction that
/// `Transact::transact_mut` opens on the document: the root text `name` is
/// created where it is missing, and `chunk` is appended at its end. The other
/// texts stay as they are. yrs hands a text out through a transaction only,
/// so the three calls stand together; the transaction is committed when it
/// is dropped, before the call returns. The document is borrowed mutably
/// because its content changes, and so that nobody else has a transaction
/// open on it, on which yrs would panic.
#[verifier::external_body]
fn append_text(doc: &mut Doc, name: &str, chunk: &str)
    ensures
        doc_texts(*final(doc)) == doc_texts(*old(doc)).insert(
            name@,
            text_of(doc_texts(*old(doc)), name@) + chunk@,
        ),
{
    let text = doc.get_or_insert_text(name);
    let mut txn = doc.transact_mut();
    text.push(&mut txn, chunk);
}

/// `Awareness::new`: the awareness instance takes the document over as it is.
#[verifier::external_body]
fn awareness_over(doc: Doc) -> (awareness: Awareness)
    ensures
        awareness_texts(awareness) == doc_texts(doc),
{
    Awareness::new(doc)
}

/// Builds the replicated state that the session of `doc_id` starts from: a
/// fresh document whose one shared text is named after the document and
/// holds the seed `content`.
pub fn new_awareness(doc_id: i64, content: &str) -> (awareness: Awareness)
    ensures
        awareness_texts(awareness) == map![key_text(doc_id as int) => content@],
{
    let mut doc = new_doc();
    let name = document_key(doc_id);
    append_text(&mut doc, name.as_str(), content);
    awareness_over(doc)
}

} // verus!
