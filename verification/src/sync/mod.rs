//! The document store, the registry of live rooms, and what a new session
//! starts from.

mod doc_share;
mod lifecycle;
mod session;

pub use doc_share::{
    after_abandon, after_complete, after_get, completed_room, decide, BroadcastMap,
    DocumentRecord, DocumentRepository, RoomAction, RoomDecision, RoomSlot,
};
pub use lifecycle::{
    creations, lemma_at_most_one_creation, lemma_attach_same_room, lemma_documents_independent,
    lemma_first_request_creates, lemma_ready_room_stays, lemma_reported_room_is_handed_out,
    lemma_reported_room_is_kept, lemma_run_split, never_abandoned, run, step, untouched,
    RoomEvent,
};
pub(crate) use session::new_doc;
pub use session::{
    awareness_texts, doc_texts, new_awareness, no_texts, text_of, BROADCAST_BUFFER_CAPACITY,
};
