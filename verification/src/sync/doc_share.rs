use axum_ycrdt_websocket::broadcast::BroadcastGroup;
use std::collections::HashMap;
use std::sync::Arc;
use vstd::prelude::*;

verus! {

broadcast use vstd::std_specs::hash::group_hash_axioms;

/// The live session of one document: `axum_ycrdt_websocket`'s broadcast group.
/// Nothing in this crate looks inside one; the registry only hands them out.
#[verifier::external_type_specification]
#[verifier::external_body]
pub struct ExBroadcastGroup(BroadcastGroup);

/// `Arc::clone`: another handle to the same session.
#[verifier::external_body]
fn share_room(room: &Arc<BroadcastGroup>) -> (shared: Arc<BroadcastGroup>)
    ensures
        shared == *room,
{
    Arc::clone(room)
}

/// A stored document: its identifier and the text a new session starts from.
pub struct DocumentRecord {
    pub id: i64,
    pub content: String,
}

/// Read-only store of seed content, keyed by document identifier.
#[derive(Clone)]
pub struct DocumentRepository {
    docs: HashMap<i64, String>,
}

impl View for DocumentRepository {
    type V = Map<i64, Seq<char>>;

    /// The seed text of every stored document.
    closed spec fn view(&self) -> Map<i64, Seq<char>> {
        self.docs@.map_values(|content: String| content@)
    }
}

impl DocumentRepository {
    /// The built-in store: document 1 holds "hello", document 2 holds "world".
    pub fn new() -> (repo: Self)
        ensures
            repo@ == map![1i64 => "hello"@, 2i64 => "world"@],
    {
        let mut docs: HashMap<i64, String> = HashMap::new();
        docs.insert(1, "hello".to_owned());
        docs.insert(2, "world".to_owned());
        DocumentRepository { docs }
    }

    /// Looks a document up. `None` means that there is no such document.
    pub fn lookup(&self, doc_id: i64) -> (found: Option<DocumentRecord>)
        ensures
            found is Some <==> self@.contains_key(doc_id),
            found matches Some(record) ==> record.id == doc_id && record.content@
                == self@[doc_id],
    {
        match self.docs.get(&doc_id) {
            Some(content) => Some(DocumentRecord { id: doc_id, content: content.clone() }),
            None => None,
        }
    }
}

impl Default for DocumentRepository {
    /// A store without documents.
    fn default() -> (repo: Self)
        ensures
            repo@ == Map::<i64, Seq<char>>::empty(),
    {
        DocumentRepository { docs: HashMap::new() }
    }
}

/// What the registry holds for a document that it knows.
#[derive(Clone)]
pub enum RoomSlot {
    /// One caller is building the session; nobody else may.
    Creating,
    /// The session exists. It is never replaced.
    Ready(Arc<BroadcastGroup>),
}

/// What a caller that asked for a room has to do next.
pub enum RoomAction {
    /// The session exists: subscribe to it.
    Attach(Arc<BroadcastGroup>),
    /// The caller is the one to build the session from this record, and then
    /// to report it with [`BroadcastMap::complete_room`] or
    /// [`BroadcastMap::abandon_room`].
    Create(DocumentRecord),
    /// Another caller is building the session: ask again once it has finished.
    Wait,
    /// No session and no stored document of that identifier.
    NotFound,
}

/// [`RoomAction`] as contracts see it.
pub enum RoomDecision {
    Attach(Arc<BroadcastGroup>),
    Create(Seq<char>),
    Wait,
    NotFound,
}

impl View for RoomAction {
    type V = RoomDecision;

    open spec fn view(&self) -> RoomDecision {
        match *self {
            RoomAction::Attach(room) => RoomDecision::Attach(room),
            RoomAction::Create(record) => RoomDecision::Create(record.content@),
            RoomAction::Wait => RoomDecision::Wait,
            RoomAction::NotFound => RoomDecision::NotFound,
        }
    }
}

/// The answer to a request for the room of `doc_id`.
pub open spec fn decide(
    rooms: Map<i64, RoomSlot>,
    store: Map<i64, Seq<char>>,
    doc_id: i64,
) -> RoomDecision {
    if rooms.contains_key(doc_id) {
        match rooms[doc_id] {
            RoomSlot::Ready(room) => RoomDecision::Attach(room),
            RoomSlot::Creating => RoomDecision::Wait,
        }
    } else if store.contains_key(doc_id) {
        RoomDecision::Create(store[doc_id])
    } else {
        RoomDecision::NotFound
    }
}

/// The registry after a request for the room of `doc_id`: the caller that is
/// told to create the session leaves a mark, every other request changes
/// nothing.
pub open spec fn after_get(
    rooms: Map<i64, RoomSlot>,
    store: Map<i64, Seq<char>>,
    doc_id: i64,
) -> Map<i64, RoomSlot> {
    if decide(rooms, store, doc_id) is Create {
        rooms.insert(doc_id, RoomSlot::Creating)
    } else {
        rooms
    }
}

/// The session that a caller holds after it has reported `room` for
/// `doc_id`: the one that was there first.
pub open spec fn completed_room(
    rooms: Map<i64, RoomSlot>,
    doc_id: i64,
    room: Arc<BroadcastGroup>,
) -> Arc<BroadcastGroup> {
    if rooms.contains_key(doc_id) && rooms[doc_id] is Ready {
        rooms[doc_id]->Ready_0
    } else {
        room
    }
}

/// The registry after `room` was reported for `doc_id`.
pub open spec fn after_complete(
    rooms: Map<i64, RoomSlot>,
    doc_id: i64,
    room: Arc<BroadcastGroup>,
) -> Map<i64, RoomSlot> {
    rooms.insert(doc_id, RoomSlot::Ready(completed_room(rooms, doc_id, room)))
}

/// The registry after the caller that was building the session of `doc_id`
/// gave up: its mark is gone, a session that exists stays.
pub open spec fn after_abandon(rooms: Map<i64, RoomSlot>, doc_id: i64) -> Map<i64, RoomSlot> {
    if rooms.contains_key(doc_id) && rooms[doc_id] is Creating {
        rooms.remove(doc_id)
    } else {
        rooms
    }
}

/// Registry of live rooms: at most one session per document.
#[derive(Clone)]
pub struct BroadcastMap {
    rooms: HashMap<i64, RoomSlot>,
}

impl View for BroadcastMap {
    type V = Map<i64, RoomSlot>;

    closed spec fn view(&self) -> Map<i64, RoomSlot> {
        self.rooms@
    }
}

impl BroadcastMap {
    /// A registry without rooms.
    pub fn new() -> (registry: Self)
        ensures
            registry@ == Map::<i64, RoomSlot>::empty(),
    {
        BroadcastMap { rooms: HashMap::new() }
    }

    /// Asks for the room of `doc_id`.
    ///
    /// A session that exists is handed out as it is. Where there is none and
    /// the store holds the document, the first caller is told to create the
    /// session and the registry remembers that; until that caller reports
    /// back, later callers for the same document are told to wait. Documents
    /// do not wait for one another.
    pub fn get_room(&mut self, doc_id: i64, doc_repo: &DocumentRepository) -> (action: RoomAction)
        ensures
            action@ == decide(old(self)@, doc_repo@, doc_id),
            final(self)@ == after_get(old(self)@, doc_repo@, doc_id),
            action matches RoomAction::Create(record) ==> record.id == doc_id,
    {
        match self.rooms.get(&doc_id) {
            Some(RoomSlot::Ready(room)) => RoomAction::Attach(share_room(room)),
            Some(RoomSlot::Creating) => RoomAction::Wait,
            None => match doc_repo.lookup(doc_id) {
                Some(record) => {
                    self.rooms.insert(doc_id, RoomSlot::Creating);
                    RoomAction::Create(record)
                },
                None => RoomAction::NotFound,
            },
        }
    }

    /// Reports the session that the caller built for `doc_id` and returns the
    /// session to subscribe to. A session that is already there stays and is
    /// the one returned; else `room` becomes the document's session.
    pub fn complete_room(&mut self, doc_id: i64, room: Arc<BroadcastGroup>) -> (kept: Arc<
        BroadcastGroup,
    >)
        ensures
            kept == completed_room(old(self)@, doc_id, room),
            final(self)@ == after_complete(old(self)@, doc_id, room),
    {
        match self.rooms.get(&doc_id) {
            Some(RoomSlot::Ready(first)) => {
                let kept = share_room(first);
                kept
            },
            _ => {
                let kept = share_room(&room);
                self.rooms.insert(doc_id, RoomSlot::Ready(room));
                kept
            },
        }
    }

    /// Reports that the session of `doc_id` could not be built. The mark of
    /// the creation in progress goes, so that a later caller may try again;
    /// nothing else changes.
    pub fn abandon_room(&mut self, doc_id: i64)
        ensures
            final(self)@ == after_abandon(old(self)@, doc_id),
    {
        let creating = match self.rooms.get(&doc_id) {
            Some(RoomSlot::Creating) => true,
            _ => false,
        };
        if creating {
            self.rooms.remove(&doc_id);
        }
    }
}

} // verus!
