//! What a handler hands back: a reply for the browser, a failure, or a
//! request to the identity provider whose answer the next step takes.

use crate::error::error_message;
use crate::error::given;
use crate::error::reports;
use crate::error::DetailModel;
use crate::error::Error;
use crate::error::ErrorKind;
use crate::error::FailureModel;
use crate::error::Rejection;
use crate::session::text;
use crate::session::SessionRecord;
use vstd::prelude::*;

verus! {

/// What is sent back to the browser. Every reply is sent with caching
/// disabled (see [`CACHE_CONTROL`] and [`PRAGMA`]).
#[derive(Debug, Clone, PartialEq, Eq)]
pub enum Reply {
    /// 302 with this `Location`.
    Found { location: String },
    /// 200 with the JSON object `{"status": ...}`; see [`status_label`].
    SessionStatus { logged_in: bool },
    /// 200 with the JSON object `{"username": ..., "user_id": ...}`.
    UserDetails { username: String, user_id: String },
}

/// A reply as a mathematical value.
pub ghost enum ReplyModel {
    Found { location: Seq<char> },
    SessionStatus { logged_in: bool },
    UserDetails { username: Seq<char>, user_id: Seq<char> },
}

impl View for Reply {
    type V = ReplyModel;

    open spec fn view(&self) -> ReplyModel {
        match self {
            Reply::Found { location } => ReplyModel::Found { location: location@ },
            Reply::SessionStatus { logged_in } => ReplyModel::SessionStatus {
                logged_in: *logged_in,
            },
            Reply::UserDetails { username, user_id } => ReplyModel::UserDetails {
                username: username@,
                user_id: user_id@,
            },
        }
    }
}

/// Value of the `Cache-Control` header of every reply.
pub const CACHE_CONTROL: &'static str = "no-store, no-cache, must-revalidate";

/// Value of the `Pragma` header of every reply.
pub const PRAGMA: &'static str = "no-cache";

/// The value of `status` in the body of a session-status reply.
pub fn status_label(logged_in: bool) -> (label: &'static str)
    ensures
        label@ == if logged_in {
            "logged_in"@
        } else {
            "not_logged_in"@
        },
{
    if logged_in {
        "logged_in"
    } else {
        "not_logged_in"
    }
}

/// The result of one step of a handler. A handler is run by performing what
/// each step asks for and handing the answer to the next step, until a step
/// ends the request.
#[derive(Debug, Clone, PartialEq, Eq)]
pub enum Step {
    /// The request ends with this reply.
    Reply(Reply),
    /// The request failed: the session is destroyed, the record goes to the
    /// log, the browser is redirected to the client application.
    Rejected(ErrorKind, Rejection),
    /// Build the provider's authorization URL for these values and scopes,
    /// with the PKCE challenge of `pkce_verifier`.
    Authorize { pkce_verifier: String, state: String, nonce: String, scopes: Vec<String> },
    /// Exchange the authorization code for tokens.
    ExchangeCode { code: String, pkce_verifier: String },
    /// Verify the ID token against the nonce and decode its claims.
    VerifyIdToken { id_token: String, nonce: String },
    /// Exchange the refresh token for new tokens.
    Refresh { refresh_token: String },
}

impl Step {
    /// The step ends the request with the reply `reply`.
    pub open spec fn replies(self, reply: ReplyModel) -> bool {
        self matches Step::Reply(r) && r@ == reply
    }

    /// The step is the failure `failure` of `handler`, as the error policy
    /// reports it.
    pub open spec fn rejects(
        self,
        failure: FailureModel,
        handler: Seq<char>,
        client_url: Seq<char>,
    ) -> bool {
        self matches Step::Rejected(kind, rejection) && kind == failure.kind && reports(
            rejection,
            failure,
            handler,
            client_url,
        )
    }
}

/// Fails a request: runs the error policy and wraps what it returns.
pub(crate) fn reject(
    session: &mut SessionRecord,
    client_url: &str,
    kind: ErrorKind,
    handler: &str,
    reason: &str,
    detail: Option<String>,
) -> (step: Step)
    ensures
        final(session)@.is_empty(),
        step.rejects(
            FailureModel { kind, reason: reason@, detail: given(text(detail)) },
            handler@,
            client_url@,
        ),
        detail is Some ==> step.rejects(
            FailureModel { kind, reason: reason@, detail: DetailModel::Rendered },
            handler@,
            client_url@,
        ),
{
    let rejection = Error::send(session, client_url, handler, reason, detail);
    proof {
        if detail is Some {
            assert(rejection.log@ == error_message(handler@, reason@, Some(detail->0@)));
        }
    }
    Step::Rejected(kind, rejection)
}

} // verus!
