use crate::sync::doc_share::{
    after_abandon, after_complete, after_get, completed_room, decide, RoomDecision, RoomSlot,
};
use axum_ycrdt_websocket::broadcast::BroadcastGroup;
use std::sync::Arc;
use vstd::prelude::*;

verus! {

/// One call on the registry, as the callers that share it make them one after
/// another: [`BroadcastMap::get_room`](crate::sync::BroadcastMap::get_room),
/// [`complete_room`](crate::sync::BroadcastMap::complete_room) or
/// [`abandon_room`](crate::sync::BroadcastMap::abandon_room).
pub enum RoomEvent {
    Get(i64),
    Complete(i64, Arc<BroadcastGroup>),
    Abandon(i64),
}

impl RoomEvent {
    /// The document that the call is about.
    pub open spec fn doc_id(self) -> i64 {
        match self {
            RoomEvent::Get(doc_id) => doc_id,
            RoomEvent::Complete(doc_id, _) => doc_id,
            RoomEvent::Abandon(doc_id) => doc_id,
        }
    }
}

/// The registry after one call.
pub open spec fn step(
    rooms: Map<i64, RoomSlot>,
    store: Map<i64, Seq<char>>,
    event: RoomEvent,
) -> Map<i64, RoomSlot> {
    match event {
        RoomEvent::Get(doc_id) => after_get(rooms, store, doc_id),
        RoomEvent::Complete(doc_id, room) => after_complete(rooms, doc_id, room),
        RoomEvent::Abandon(doc_id) => after_abandon(rooms, doc_id),
    }
}

/// The registry after a run of calls, in their order.
pub open spec fn run(
    rooms: Map<i64, RoomSlot>,
    store: Map<i64, Seq<char>>,
    events: Seq<RoomEvent>,
) -> Map<i64, RoomSlot>
    decreases events.len(),
{
    if events.len() == 0 {
        rooms
    } else {
        step(run(rooms, store, events.drop_last()), store, events.last())
    }
}

/// How many requests of a run were told to create the session of `doc_id`.
pub open spec fn creations(
    rooms: Map<i64, RoomSlot>,
    store: Map<i64, Seq<char>>,
    events: Seq<RoomEvent>,
    doc_id: i64,
) -> nat
    decreases events.len(),
{
    if events.len() == 0 {
        0
    } else {
        let before = run(rooms, store, events.drop_last());
        let told_to_create = events.last() == RoomEvent::Get(doc_id) && decide(
            before,
            store,
            doc_id,
        ) is Create;
        creations(rooms, store, events.drop_last(), doc_id) + if told_to_create {
            1nat
        } else {
            0nat
        }
    }
}

/// No creation of the session of `doc_id` is given up in `events`.
pub open spec fn never_abandoned(events: Seq<RoomEvent>, doc_id: i64) -> bool {
    forall|k: int| 0 <= k < events.len() ==> events[k] != RoomEvent::Abandon(doc_id)
}

/// No call of `events` is about `doc_id`.
pub open spec fn untouched(events: Seq<RoomEvent>, doc_id: i64) -> bool {
    forall|k: int| 0 <= k < events.len() ==> (#[trigger] events[k]).doc_id() != doc_id
}

/// A run of calls can be cut in two at any point.
pub proof fn lemma_run_split(
    rooms: Map<i64, RoomSlot>,
    store: Map<i64, Seq<char>>,
    first: Seq<RoomEvent>,
    second: Seq<RoomEvent>,
)
    ensures
        run(rooms, store, first + second) == run(run(rooms, store, first), store, second),
    decreases second.len(),
{
    if second.len() > 0 {
        lemma_run_split(rooms, store, first, second.drop_last());
        assert((first + second).drop_last() =~= first + second.drop_last());
    }
}

/// A session that exists is never removed and never replaced, whatever is
/// called afterwards and for whichever document.
pub proof fn lemma_ready_room_stays(
    rooms: Map<i64, RoomSlot>,
    store: Map<i64, Seq<char>>,
    events: Seq<RoomEvent>,
    doc_id: i64,
)
    requires
        rooms.contains_key(doc_id),
        rooms[doc_id] is Ready,
    ensures
        run(rooms, store, events).contains_key(doc_id),
        run(rooms, store, events)[doc_id] == rooms[doc_id],
        decide(run(rooms, store, events), store, doc_id) == decide(rooms, store, doc_id),
    decreases events.len(),
{
    if events.len() > 0 {
        lemma_ready_room_stays(rooms, store, events.drop_last(), doc_id);
    }
}

/// Every caller that is told to attach to the session of a document is
/// handed the same session: where the request after the first `i` calls of a
/// run and the request after the first `j` calls are both answered with a
/// session, it is one and the same.
pub proof fn lemma_attach_same_room(
    rooms: Map<i64, RoomSlot>,
    store: Map<i64, Seq<char>>,
    events: Seq<RoomEvent>,
    doc_id: i64,
    i: int,
    j: int,
)
    requires
        0 <= i <= j <= events.len(),
        decide(run(rooms, store, events.take(i)), store, doc_id) is Attach,
    ensures
        decide(run(rooms, store, events.take(j)), store, doc_id) == decide(
            run(rooms, store, events.take(i)),
            store,
            doc_id,
        ),
{
    let early = run(rooms, store, events.take(i));
    lemma_run_split(rooms, store, events.take(i), events.subrange(i, j));
    assert(events.take(i) + events.subrange(i, j) =~= events.take(j));
    lemma_ready_room_stays(early, store, events.subrange(i, j), doc_id);
}

/// Of all the requests for a document in a run of calls, at most one is told
/// to create its session, as long as no creation is given up; and none is
/// where the registry knew the document before the run.
pub proof fn lemma_at_most_one_creation(
    rooms: Map<i64, RoomSlot>,
    store: Map<i64, Seq<char>>,
    events: Seq<RoomEvent>,
    doc_id: i64,
)
    requires
        never_abandoned(events, doc_id),
    ensures
        creations(rooms, store, events, doc_id) <= 1,
        rooms.contains_key(doc_id) ==> creations(rooms, store, events, doc_id) == 0,
        rooms.contains_key(doc_id) || creations(rooms, store, events, doc_id) == 1 ==> run(
            rooms,
            store,
            events,
        ).contains_key(doc_id),
    decreases events.len(),
{
    if events.len() > 0 {
        lemma_at_most_one_creation(rooms, store, events.drop_last(), doc_id);
    }
}

/// The first request for a document that the store holds and the registry
/// does not know is the one that is told to create the session; together
/// with [`lemma_at_most_one_creation`], exactly one request is.
pub proof fn lemma_first_request_creates(
    rooms: Map<i64, RoomSlot>,
    store: Map<i64, Seq<char>>,
    later: Seq<RoomEvent>,
    doc_id: i64,
)
    requires
        !rooms.contains_key(doc_id),
        store.contains_key(doc_id),
        never_abandoned(later, doc_id),
    ensures
        creations(rooms, store, seq![RoomEvent::Get(doc_id)] + later, doc_id) == 1,
    decreases later.len(),
{
    let first = seq![RoomEvent::Get(doc_id)];
    if later.len() == 0 {
        assert(creations(rooms, store, first.drop_last(), doc_id) == 0);
    } else {
        let earlier = later.drop_last();
        lemma_first_request_creates(rooms, store, earlier, doc_id);
        assert((first + later).drop_last() =~= first + earlier);
        lemma_at_most_one_creation(rooms, store, first + earlier, doc_id);
    }
}

/// The session that a caller holds after it has reported one is the session
/// that the registry hands out from then on; and it is the reported one
/// unless a session was there before.
pub proof fn lemma_reported_room_is_kept(
    rooms: Map<i64, RoomSlot>,
    store: Map<i64, Seq<char>>,
    doc_id: i64,
    room: Arc<BroadcastGroup>,
)
    ensures
        decide(after_complete(rooms, doc_id, room), store, doc_id) == RoomDecision::Attach(
            completed_room(rooms, doc_id, room),
        ),
        !(decide(rooms, store, doc_id) is Attach) ==> completed_room(rooms, doc_id, room) == room,
{
}

/// The creating caller and the callers that attach later hold the same
/// session: where the call at position `i` of a run reports a session, every
/// request that is answered after it is answered with the session that the
/// reporting caller went away with.
pub proof fn lemma_reported_room_is_handed_out(
    rooms: Map<i64, RoomSlot>,
    store: Map<i64, Seq<char>>,
    events: Seq<RoomEvent>,
    doc_id: i64,
    room: Arc<BroadcastGroup>,
    i: int,
    j: int,
)
    requires
        0 <= i < j <= events.len(),
        events[i] == RoomEvent::Complete(doc_id, room),
    ensures
        decide(run(rooms, store, events.take(j)), store, doc_id) == RoomDecision::Attach(
            completed_room(run(rooms, store, events.take(i)), doc_id, room),
        ),
{
    let reported = events.take(i + 1);
    assert(reported.drop_last() =~= events.take(i));
    lemma_run_split(rooms, store, reported, events.subrange(i + 1, j));
    assert(reported + events.subrange(i + 1, j) =~= events.take(j));
    lemma_ready_room_stays(
        run(rooms, store, reported),
        store,
        events.subrange(i + 1, j),
        doc_id,
    );
}

/// Documents do not wait for one another: what is called for other documents
/// changes neither what the registry holds for `doc_id` nor the answer to a
/// request for it.
pub proof fn lemma_documents_independent(
    rooms: Map<i64, RoomSlot>,
    store: Map<i64, Seq<char>>,
    events: Seq<RoomEvent>,
    doc_id: i64,
)
    requires
        untouched(events, doc_id),
    ensures
        run(rooms, store, events).contains_key(doc_id) == rooms.contains_key(doc_id),
        rooms.contains_key(doc_id) ==> run(rooms, store, events)[doc_id] == rooms[doc_id],
        decide(run(rooms, store, events), store, doc_id) == decide(rooms, store, doc_id),
    decreases events.len(),
{
    if events.len() > 0 {
        lemma_documents_independent(rooms, store, events.drop_last(), doc_id);
    }
}

} // verus!
