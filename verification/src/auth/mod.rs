//! Who may log in, and which documents each of them may open.

mod admission;
mod doc_backend;
mod user;
mod user_backend;

pub use admission::{
    access_verdict, authorize, authorize_path, lemma_user_verdict, opens, path_verdict, permits,
    principal_view, user_verdict, GatewayError,
};
pub use doc_backend::DocBackend;
pub use user::{default_secret, User, UserView};
pub use user_backend::{initial_users, Credentials, UserBackend};
