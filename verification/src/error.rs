//! The error policy.
//!
//! Every failure of every handler goes through [`Error::send`]: it composes
//! the log record, destroys the session and redirects the browser to the
//! client application. Nothing of the failure reaches the browser.

use crate::reply::Reply;
use crate::reply::ReplyModel;
use crate::session::text;
use crate::session::SessionRecord;
use vstd::prelude::*;

verus! {

/// The classes of failure. Each is terminal for the request it occurs in.
#[derive(Debug, Clone, Copy, PartialEq, Eq, Structural)]
pub enum ErrorKind {
    /// The provider reported an error in the callback.
    ProviderError,
    /// Something that a request needs from the query, the session or the
    /// configuration is missing or unusable, or the two `state` values
    /// differ.
    ValidationError,
    /// A code or refresh-token exchange failed, timed out, or answered
    /// without a token that the flow requires.
    ExchangeError,
    /// The token response carries no usable lifetime.
    MissingExpiry,
    /// The ID token did not pass verification.
    ClaimsVerificationError,
    /// A session field could not be read or written, or the session is
    /// inconsistent: it holds tokens without their expiry.
    StorageError,
    /// No user name or user id where one is required.
    MissingIdentity,
}

/// The record written when a request fails:
/// `(handler) reason` or `(handler) reason: detail`.
pub open spec fn error_message(
    handler: Seq<char>,
    reason: Seq<char>,
    detail: Option<Seq<char>>,
) -> Seq<char> {
    let head = "("@ + handler + ") "@ + reason;
    match detail {
        Some(d) => head + ": "@ + d,
        None => head,
    }
}

/// What the error policy hands back: the record for the log sink, and the
/// redirect for the browser.
#[derive(Debug, Clone, PartialEq, Eq)]
pub struct Rejection {
    pub log: String,
    pub reply: Reply,
}

/// How much is known of the detail in a failure's record.
pub ghost enum DetailModel {
    /// The record has no detail.
    Absent,
    /// The detail is this text.
    Exactly(Seq<char>),
    /// The detail is the `Debug` rendering of an error of an outside crate.
    Rendered,
}

/// A failure: its class, the reason in its record, and the detail.
pub ghost struct FailureModel {
    pub kind: ErrorKind,
    pub reason: Seq<char>,
    pub detail: DetailModel,
}

/// A failure without detail.
pub open spec fn plain(kind: ErrorKind, reason: Seq<char>) -> FailureModel {
    FailureModel { kind, reason, detail: DetailModel::Absent }
}

/// The detail of a failure whose detail, if any, is the text `detail`.
pub open spec fn given(detail: Option<Seq<char>>) -> DetailModel {
    match detail {
        Some(d) => DetailModel::Exactly(d),
        None => DetailModel::Absent,
    }
}

/// The record `log` is that of a failure in `handler` with this reason and
/// this detail.
pub open spec fn records(
    log: Seq<char>,
    handler: Seq<char>,
    reason: Seq<char>,
    detail: DetailModel,
) -> bool {
    match detail {
        DetailModel::Absent => log == error_message(handler, reason, None),
        DetailModel::Exactly(d) => log == error_message(handler, reason, Some(d)),
        DetailModel::Rendered => exists|d: Seq<char>|
            log == #[trigger] error_message(handler, reason, Some(d)),
    }
}

/// `rejection` is what the error policy returns for `failure` in `handler`:
/// the record of the failure, and the redirect to the client application.
pub open spec fn reports(
    rejection: Rejection,
    failure: FailureModel,
    handler: Seq<char>,
    client_url: Seq<char>,
) -> bool {
    &&& rejection.reply@ == (ReplyModel::Found { location: client_url })
    &&& records(rejection.log@, handler, failure.reason, failure.detail)
}

/// What `Debug` writes for a text: the text between double quotes, with the
/// characters escaped that Rust escapes in a string literal.
pub uninterp spec fn debug_text(value: Seq<char>) -> Seq<char>;

/// `format!("{:?}", value)` for a text.
#[verifier::external_body]
pub(crate) fn debug_quoted(value: &str) -> (quoted: String)
    ensures
        quoted@ == debug_text(value@),
{
    format!("{:?}", value)
}

/// `format!("{:?}", value)` for any value. What comes back is whatever the
/// value's `Debug` impl writes, so nothing is claimed of it.
#[verifier::external_body]
pub(crate) fn debug_render<E: core::fmt::Debug>(value: &E) -> (rendered: String) {
    format!("{:?}", value)
}

/// The error policy.
#[derive(Debug)]
pub struct Error;

impl Error {
    /// The detail of an underlying error, as its `Debug` rendering.
    pub fn fmt<E: core::fmt::Debug>(err: E) -> (detail: Option<String>)
        ensures
            detail is Some,
    {
        Some(debug_render(&err))
    }

    /// Log, purge, redirect: composes the record from the handler's name,
    /// the reason and the detail; destroys the session whatever it holds;
    /// and redirects to `redirect_url`.
    pub fn send(
        sess: &mut SessionRecord,
        redirect_url: &str,
        handler: &str,
        msg: &str,
        err: Option<String>,
    ) -> (rejection: Rejection)
        ensures
            final(sess)@.is_empty(),
            rejection.log@ == error_message(handler@, msg@, text(err)),
            rejection.reply@ == (ReplyModel::Found { location: redirect_url@ }),
    {
        let mut log = String::from_str("(");
        log.append(handler);
        log.append(") ");
        log.append(msg);
        match err {
            Some(detail) => {
                log.append(": ");
                log.append(detail.as_str());
            },
            None => {},
        }
        sess.purge();
        Rejection { log, reply: Reply::Found { location: String::from_str(redirect_url) } }
    }
}

} // verus!
