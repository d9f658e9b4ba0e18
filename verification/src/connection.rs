//! One connection, from the request to join a document until it is closed.
//!
//! A connection is upgraded, authorized, joined to the room of its document
//! and attached to it, in that order. The caller does the waiting (for the
//! handshake, for a session to be built, for the subscription to end) and
//! reports each outcome here; what follows from it is decided here.

use crate::auth::{
    authorize_path, lemma_user_verdict, path_verdict, permits, principal_view, GatewayError, User,
    UserView,
};
use crate::ident::{key_text, lemma_key_text_injective};
use crate::sync::{
    after_abandon, after_complete, after_get, completed_room, decide, BroadcastMap,
    DocumentRepository, RoomAction, RoomDecision, RoomSlot,
};
use axum_ycrdt_websocket::broadcast::BroadcastGroup;
use std::sync::Arc;
use vstd::prelude::*;

verus! {

/// Where a connection stands.
#[derive(Clone, Copy, Debug, PartialEq, Eq, Structural)]
pub enum ConnectionState {
    /// The transport handshake is under way.
    Upgrading,
    /// The request is known; whether the principal may join is being decided.
    Authorizing,
    /// The principal may join this document; its room is being obtained.
    Joining(i64),
    /// The connection is a subscriber of this document's session.
    Attached(i64),
    /// The connection was refused. Nothing follows.
    Rejected(GatewayError),
    /// The subscription is over. Nothing follows.
    Closed,
}

/// What can happen to a connection.
pub enum ConnectionEvent {
    /// The handshake is done and the request path is known.
    Upgraded,
    /// The admission gate has answered.
    Verdict(Result<i64, GatewayError>),
    /// The registry has answered a request for the room.
    Room(RoomDecision),
    /// The session that this connection was told to create exists.
    Created,
    /// The session that this connection was told to create could not be built.
    CreationFailed,
    /// The subscription has ended.
    Finished,
}

/// The state that follows `state` on `event`. An event that the state does
/// not wait for changes nothing.
pub open spec fn next(state: ConnectionState, event: ConnectionEvent) -> ConnectionState {
    match state {
        ConnectionState::Upgrading => match event {
            ConnectionEvent::Upgraded => ConnectionState::Authorizing,
            _ => state,
        },
        ConnectionState::Authorizing => match event {
            ConnectionEvent::Verdict(Ok(doc_id)) => ConnectionState::Joining(doc_id),
            ConnectionEvent::Verdict(Err(reason)) => ConnectionState::Rejected(reason),
            _ => state,
        },
        ConnectionState::Joining(doc_id) => match event {
            ConnectionEvent::Room(RoomDecision::Attach(_)) => ConnectionState::Attached(doc_id),
            ConnectionEvent::Room(RoomDecision::NotFound) => ConnectionState::Rejected(
                GatewayError::NotFound,
            ),
            ConnectionEvent::Created => ConnectionState::Attached(doc_id),
            ConnectionEvent::CreationFailed => ConnectionState::Rejected(
                GatewayError::SessionCreationFailure,
            ),
            _ => state,
        },
        ConnectionState::Attached(_) => match event {
            ConnectionEvent::Finished => ConnectionState::Closed,
            _ => state,
        },
        ConnectionState::Rejected(_) => state,
        ConnectionState::Closed => state,
    }
}

/// The registry after a connection in `state` has asked for its room: only a
/// connection that is joining reaches the registry at all.
pub open spec fn rooms_after_join(
    state: ConnectionState,
    rooms: Map<i64, RoomSlot>,
    store: Map<i64, Seq<char>>,
) -> Map<i64, RoomSlot> {
    match state {
        ConnectionState::Joining(doc_id) => after_get(rooms, store, doc_id),
        _ => rooms,
    }
}

/// A connection and the state it is in. The state changes through the
/// methods only, so that a connection joins a room only after it was let
/// through to that document.
pub struct Connection {
    state: ConnectionState,
}

impl View for Connection {
    type V = ConnectionState;

    closed spec fn view(&self) -> ConnectionState {
        self.state
    }
}

impl Connection {
    /// A connection whose handshake has begun.
    pub fn new() -> (connection: Self)
        ensures
            connection@ == ConnectionState::Upgrading,
    {
        Connection { state: ConnectionState::Upgrading }
    }

    /// The state that the connection is in.
    pub fn state(&self) -> (state: ConnectionState)
        ensures
            state == self@,
    {
        self.state
    }

    /// The handshake is done.
    pub fn upgraded(&mut self)
        ensures
            final(self)@ == next(old(self)@, ConnectionEvent::Upgraded),
    {
        if let ConnectionState::Upgrading = self.state {
            self.state = ConnectionState::Authorizing;
        }
    }

    /// Puts the request before the admission gate and returns its answer. A
    /// connection that waits for that answer goes on to join the document,
    /// or is rejected with the reason given; the registry is not touched
    /// either way.
    pub fn authorize(&mut self, principal: Option<&User>, item: &str) -> (verdict: Result<
        i64,
        GatewayError,
    >)
        ensures
            verdict == path_verdict(principal_view(principal), item@),
            final(self)@ == next(old(self)@, ConnectionEvent::Verdict(verdict)),
    {
        let verdict = authorize_path(principal, item);
        if let ConnectionState::Authorizing = self.state {
            self.state =
            match verdict {
                Ok(doc_id) => ConnectionState::Joining(doc_id),
                Err(reason) => ConnectionState::Rejected(reason),
            };
        }
        verdict
    }

    /// Asks the registry for the room of the connection's document and
    /// returns what the caller has to do. A connection that is not joining
    /// asks nothing: the registry stays as it is and there is nothing to do.
    ///
    /// With a session to attach to, the connection is attached. Without a
    /// session and without a stored document, it is rejected as not found.
    /// Told to create the session, or to wait for it, it goes on joining.
    pub fn join(&mut self, registry: &mut BroadcastMap, doc_repo: &DocumentRepository) -> (action:
        Option<RoomAction>)
        ensures
            final(registry)@ == rooms_after_join(old(self)@, old(registry)@, doc_repo@),
            match old(self)@ {
                ConnectionState::Joining(doc_id) => {
                    &&& action matches Some(todo)
                    &&& todo@ == decide(old(registry)@, doc_repo@, doc_id)
                    &&& todo matches RoomAction::Create(record) ==> record.id == doc_id
                    &&& final(self)@ == next(old(self)@, ConnectionEvent::Room(todo@))
                },
                _ => action is None && final(self)@ == old(self)@,
            },
    {
        match self.state {
            ConnectionState::Joining(doc_id) => {
                let todo = registry.get_room(doc_id, doc_repo);
                match todo {
                    RoomAction::Attach(_) => {
                        self.state = ConnectionState::Attached(doc_id);
                    },
                    RoomAction::NotFound => {
                        self.state = ConnectionState::Rejected(GatewayError::NotFound);
                    },
                    _ => {},
                }
                Some(todo)
            },
            _ => None,
        }
    }

    /// Reports the session that this connection built and returns the
    /// session to subscribe to, which is the document's one session from
    /// then on. A connection that is not joining reports nothing.
    pub fn created(&mut self, registry: &mut BroadcastMap, room: Arc<BroadcastGroup>) -> (kept:
        Option<Arc<BroadcastGroup>>)
        ensures
            final(self)@ == next(old(self)@, ConnectionEvent::Created),
            match old(self)@ {
                ConnectionState::Joining(doc_id) => {
                    &&& kept == Some(completed_room(old(registry)@, doc_id, room))
                    &&& final(registry)@ == after_complete(old(registry)@, doc_id, room)
                },
                _ => kept is None && final(registry)@ == old(registry)@,
            },
    {
        match self.state {
            ConnectionState::Joining(doc_id) => {
                let kept = registry.complete_room(doc_id, room);
                self.state = ConnectionState::Attached(doc_id);
                Some(kept)
            },
            _ => None,
        }
    }

    /// Reports that this connection could not build the session. The
    /// connection is rejected, and the registry forgets that the session was
    /// being built. A connection that is not joining reports nothing.
    pub fn creation_failed(&mut self, registry: &mut BroadcastMap)
        ensures
            final(self)@ == next(old(self)@, ConnectionEvent::CreationFailed),
            match old(self)@ {
                ConnectionState::Joining(doc_id) => final(registry)@ == after_abandon(
                    old(registry)@,
                    doc_id,
                ),
                _ => final(registry)@ == old(registry)@,
            },
    {
        if let ConnectionState::Joining(doc_id) = self.state {
            registry.abandon_room(doc_id);
            self.state = ConnectionState::Rejected(GatewayError::SessionCreationFailure);
        }
    }

    /// The subscription has ended: the connection is closed. Returns what is
    /// to be reported, which is a subscription error where an attached
    /// connection did not end normally. Neither the session nor the registry
    /// is part of this.
    pub fn finished(&mut self, ended_normally: bool) -> (report: Option<GatewayError>)
        ensures
            final(self)@ == next(old(self)@, ConnectionEvent::Finished),
            report == if old(self)@ is Attached && !ended_normally {
                Some(GatewayError::SubscriptionError)
            } else {
                None
            },
    {
        if let ConnectionState::Attached(_) = self.state {
            self.state = ConnectionState::Closed;
            if !ended_normally {
                return Some(GatewayError::SubscriptionError);
            }
        }
        None
    }
}

/// A connection that was rejected or closed stays as it is.
pub proof fn lemma_terminal_states(state: ConnectionState, event: ConnectionEvent)
    requires
        state is Rejected || state is Closed,
    ensures
        next(state, event) == state,
{
}

/// Admission comes before the registry: a connection begins to join a
/// document only on the admission gate's answer that it may, and it is
/// attached only out of joining that document.
pub proof fn lemma_admission_comes_first(
    state: ConnectionState,
    event: ConnectionEvent,
    doc_id: i64,
)
    ensures
        next(state, event) == ConnectionState::Joining(doc_id) && state != next(state, event)
            ==> state is Authorizing && (event matches ConnectionEvent::Verdict(Ok(admitted))
            && admitted == doc_id),
        next(state, event) == ConnectionState::Attached(doc_id) && state != next(state, event)
            ==> state == ConnectionState::Joining(doc_id),
{
}

/// A principal that may not open a document is refused as forbidden when
/// it asks for it by name, whether or not the document exists; the
/// connection is rejected, and a rejected connection leaves every registry
/// as it is, so that no session is created.
pub proof fn lemma_forbidden_creates_nothing(
    user: UserView,
    doc_id: i64,
    rooms: Map<i64, RoomSlot>,
    store: Map<i64, Seq<char>>,
)
    requires
        !permits(user, doc_id),
    ensures
        ({
            let verdict = path_verdict(Some(user), key_text(doc_id as int));
            let rejected = next(ConnectionState::Authorizing, ConnectionEvent::Verdict(verdict));
            &&& verdict matches Err(reason) && reason == GatewayError::Forbidden
            &&& rejected == ConnectionState::Rejected(GatewayError::Forbidden)
            &&& rooms_after_join(rejected, rooms, store) == rooms
        }),
{
    let item = key_text(doc_id as int);
    if let Ok(other) = path_verdict(Some(user), item) {
        lemma_user_verdict(user, item, other);
        lemma_key_text_injective(other as int, doc_id as int);
    }
    lemma_user_verdict(user, item, doc_id);
}

/// A principal that asks by name for a document of its own which neither
/// the store nor the registry holds is let through the admission gate and
/// then rejected as not found, and the registry gets no entry.
pub proof fn lemma_missing_document_not_found(
    user: UserView,
    doc_id: i64,
    rooms: Map<i64, RoomSlot>,
    store: Map<i64, Seq<char>>,
)
    requires
        permits(user, doc_id),
        !store.contains_key(doc_id),
        !rooms.contains_key(doc_id),
    ensures
        ({
            let verdict = path_verdict(Some(user), key_text(doc_id as int));
            let joining = next(ConnectionState::Authorizing, ConnectionEvent::Verdict(verdict));
            let answer = decide(rooms, store, doc_id);
            &&& verdict matches Ok(admitted) && admitted == doc_id
            &&& joining == ConnectionState::Joining(doc_id)
            &&& answer == RoomDecision::NotFound
            &&& rooms_after_join(joining, rooms, store) == rooms
            &&& next(joining, ConnectionEvent::Room(answer)) == ConnectionState::Rejected(
                GatewayError::NotFound,
            )
        }),
{
    lemma_user_verdict(user, key_text(doc_id as int), doc_id);
}

} // verus!
