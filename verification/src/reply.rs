//! What the gateway answers over HTTP.

use crate::auth::GatewayError;
use vstd::prelude::*;

verus! {

/// An answer: a status code and a short text.
pub struct Reply {
    pub status: u16,
    pub body: &'static str,
}

/// How the check of a login's credentials went.
#[derive(Clone, Copy, Debug, PartialEq, Eq, Structural)]
pub enum LoginCheck {
    /// The credentials are those of a user.
    Accepted,
    /// No user has these credentials.
    Refused,
    /// The check itself failed.
    Failed,
}

/// The status code of the answer to a login.
pub open spec fn login_status(check: LoginCheck, session_stored: bool) -> u16 {
    match check {
        LoginCheck::Accepted => if session_stored {
            200
        } else {
            500
        },
        LoginCheck::Refused => 401,
        LoginCheck::Failed => 500,
    }
}

/// The status code that tells a client why it was refused.
pub open spec fn rejection_status(reason: GatewayError) -> u16 {
    match reason {
        GatewayError::Unauthenticated => 401,
        GatewayError::Forbidden => 403,
        GatewayError::NotFound => 404,
        GatewayError::SessionCreationFailure => 500,
        GatewayError::SubscriptionError => 500,
    }
}

/// Answers a login. `session_stored` says whether the login session of an
/// accepted user could be established; it is not looked at otherwise. Only
/// an accepted user with a session is told of success.
pub fn login_reply(check: LoginCheck, session_stored: bool) -> (reply: Reply)
    ensures
        reply.status == login_status(check, session_stored),
        reply.body@ == if reply.status == 200 {
            "login success"@
        } else {
            ""@
        },
{
    match check {
        LoginCheck::Accepted => {
            if session_stored {
                Reply { status: 200, body: "login success" }
            } else {
                Reply { status: 500, body: "" }
            }
        },
        LoginCheck::Refused => Reply { status: 401, body: "" },
        LoginCheck::Failed => Reply { status: 500, body: "" },
    }
}

/// Answers a request that was refused. A forbidden request is told so in
/// words; the other answers are the status alone.
pub fn rejection_reply(reason: GatewayError) -> (reply: Reply)
    ensures
        reply.status == rejection_status(reason),
        reply.body@ == if reason == GatewayError::Forbidden {
            "no access to this doc"@
        } else {
            ""@
        },
{
    match reason {
        GatewayError::Unauthenticated => Reply { status: 401, body: "" },
        GatewayError::Forbidden => Reply { status: 403, body: "no access to this doc" },
        GatewayError::NotFound => Reply { status: 404, body: "" },
        GatewayError::SessionCreationFailure => Reply { status: 500, body: "" },
        GatewayError::SubscriptionError => Reply { status: 500, body: "" },
    }
}

} // verus!
