//! Admission and room-lifecycle control plane of a collaborative-editing
//! gateway.
//!
//! Clients ask to join a document. The gateway decides whether the caller may
//! join ([`auth`]), hands out the one live session of that document, creating
//! it from its stored seed on first use ([`sync`]), and follows each connection
//! from upgrade to close ([`connection`]). Documents are named in paths and
//! inside sessions by the text of their identifier ([`ident`]); [`reply`]
//! holds what is answered over HTTP.
//!
//! Nothing here waits or does I/O. The caller performs what it is told to do
//! and reports the outcome.

pub mod auth;
pub mod connection;
pub mod ident;
pub mod reply;
pub mod sync;

pub use auth::{Credentials, DocBackend, GatewayError, User, UserBackend};
pub use connection::{Connection, ConnectionState};
pub use sync::{BroadcastMap, DocumentRecord, DocumentRepository, RoomAction};
