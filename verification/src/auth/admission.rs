use crate::auth::user::{User, UserView};
use crate::ident::{document_key, key_text, lemma_key_text_injective};
use vstd::prelude::*;

verus! {

/// Why a request did not get what it asked for.
#[derive(Clone, Copy, Debug, PartialEq, Eq, Structural)]
pub enum GatewayError {
    /// No valid principal.
    Unauthenticated,
    /// The principal may not open the document.
    Forbidden,
    /// No such document.
    NotFound,
    /// The session of the document could not be built.
    SessionCreationFailure,
    /// An attached connection ended abnormally.
    SubscriptionError,
}

/// Whether `user` may open the document `doc_id`.
pub open spec fn permits(user: UserView, doc_id: i64) -> bool {
    user.doc_ids.contains(doc_id)
}

/// The answer to the question whether `user` may open the document
/// `doc_id`: yes if the document is one of its own, forbidden if not, whether
/// or not such a document exists.
pub open spec fn access_verdict(user: UserView, doc_id: i64) -> Result<(), GatewayError> {
    if permits(user, doc_id) {
        Ok(())
    } else {
        Err(GatewayError::Forbidden)
    }
}

/// Decides whether `user` may open the document `doc_id`.
pub fn authorize(user: &User, doc_id: i64) -> (verdict: Result<(), GatewayError>)
    ensures
        verdict == access_verdict(user@, doc_id),
{
    let mut i: usize = 0;
    while i < user.doc_ids.len()
        invariant
            i <= user.doc_ids.len(),
            forall|k: int| 0 <= k < i ==> user.doc_ids[k] != doc_id,
        decreases user.doc_ids.len() - i,
    {
        if user.doc_ids[i] == doc_id {
            return Ok(());
        }
        i += 1;
    }
    Err(GatewayError::Forbidden)
}

/// The principal of a request as contracts see it.
pub open spec fn principal_view(principal: Option<&User>) -> Option<UserView> {
    match principal {
        Some(user) => Some(user@),
        None => None,
    }
}

/// Whether `item` is the name of `doc_id` and `user` may open that document.
pub open spec fn opens(user: UserView, item: Seq<char>, doc_id: i64) -> bool {
    permits(user, doc_id) && key_text(doc_id as int) == item
}

/// The answer to a principal's request whose path gives `item` for the
/// document: the document that `item` names where it is one of the
/// principal's; any other text is forbidden, whether or not it names a
/// document.
pub open spec fn user_verdict(user: UserView, item: Seq<char>) -> Result<i64, GatewayError> {
    if exists|doc_id: i64| opens(user, item, doc_id) {
        Ok(choose|doc_id: i64| opens(user, item, doc_id))
    } else {
        Err(GatewayError::Forbidden)
    }
}

/// The answer to a request whose path gives `item` for the document: without
/// a principal it is unauthenticated, with one it is [`user_verdict`].
pub open spec fn path_verdict(principal: Option<UserView>, item: Seq<char>) -> Result<
    i64,
    GatewayError,
> {
    match principal {
        None => Err(GatewayError::Unauthenticated),
        Some(user) => user_verdict(user, item),
    }
}

/// A path names at most one document: a request is let through to `doc_id`
/// if and only if the document is one of the principal's and the path is its
/// name. Every other request of a principal is forbidden.
pub proof fn lemma_user_verdict(user: UserView, item: Seq<char>, doc_id: i64)
    ensures
        opens(user, item, doc_id) <==> (user_verdict(user, item) matches Ok(found) && found
            == doc_id),
        user_verdict(user, item) matches Err(reason) ==> reason == GatewayError::Forbidden,
{
    if opens(user, item, doc_id) {
        let chosen = user_verdict(user, item)->Ok_0;
        lemma_key_text_injective(chosen as int, doc_id as int);
    }
}

/// Decides on a request by the text that its path gives for the document.
pub fn authorize_path(principal: Option<&User>, item: &str) -> (verdict: Result<
    i64,
    GatewayError,
>)
    ensures
        verdict == path_verdict(principal_view(principal), item@),
{
    let user = match principal {
        Some(user) => user,
        None => {
            return Err(GatewayError::Unauthenticated);
        },
    };
    let wanted = item.to_owned();
    let mut i: usize = 0;
    while i < user.doc_ids.len()
        invariant
            principal == Some(user),
            i <= user.doc_ids.len(),
            wanted@ == item@,
            forall|k: int| 0 <= k < i ==> key_text(user.doc_ids[k] as int) != item@,
        decreases user.doc_ids.len() - i,
    {
        let doc_id = user.doc_ids[i];
        if document_key(doc_id) == wanted {
            proof {
                lemma_user_verdict(user@, item@, doc_id);
            }
            return Ok(doc_id);
        }
        i += 1;
    }
    Err(GatewayError::Forbidden)
}

} // verus!
