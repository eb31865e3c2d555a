//! Complete-login: the callback that the provider redirects the browser to.
//!
//! The callback runs in three steps. [`begin`] checks the query against the
//! session and asks for the code exchange; [`receive_tokens`] takes the
//! tokens and asks for the ID token to be verified; [`receive_claims`] takes
//! the verified claims and ends the request. Each value that begin-login
//! left in the session is used once and removed, so a callback cannot be
//! replayed. Any failure destroys the session.

use crate::error::debug_quoted;
use crate::error::debug_text;
use crate::error::given;
use crate::error::plain;
use crate::error::DetailModel;
use crate::error::ErrorKind;
use crate::error::FailureModel;
use crate::expiry::absolute_expiry;
use crate::expiry::clock_reading;
use crate::expiry::expiry_failure;
use crate::expiry::expiry_of;
use crate::expiry::unix_now;
use crate::login::login_begun;
use crate::provider::ExchangeFailure;
use crate::provider::ExchangeStage;
use crate::provider::IdentityClaims;
use crate::provider::TokenGrant;
use crate::reply::reject;
use crate::reply::Reply;
use crate::reply::ReplyModel;
use crate::reply::Step;
use crate::session::text;
use crate::session::SessionModel;
use crate::session::SessionRecord;
use crate::settings::text_or;
use crate::settings::MainConfiguration;
use vstd::prelude::*;

verus! {

/// The handler's name in the log.
pub const HANDLER: &'static str = "callback";

/// The query parameters of the callback that the flow reads.
#[derive(Debug, Clone, PartialEq, Eq)]
pub struct CallbackQuery {
    pub code: Option<String>,
    pub state: Option<String>,
    pub error: Option<String>,
    pub error_description: Option<String>,
}

/// Why the first step fails, if it does. In this order: the provider
/// reported an error; the query has no `state`; the session has none; the
/// two differ; the query has no `code`; the session has no PKCE verifier.
pub open spec fn begin_failure(session: SessionModel, query: CallbackQuery) -> Option<
    FailureModel,
> {
    if query.error is Some {
        Some(
            FailureModel {
                kind: ErrorKind::ProviderError,
                reason: "oauth_error: "@ + debug_text(text_or(query.error_description, ""@)),
                detail: DetailModel::Exactly(debug_text(query.error->0@)),
            },
        )
    } else if query.state is None {
        Some(plain(ErrorKind::ValidationError, "no state in query"@))
    } else if session.state is None {
        Some(plain(ErrorKind::ValidationError, "no state in session"@))
    } else if text(query.state) != session.state {
        Some(plain(ErrorKind::ValidationError, "state mismatch"@))
    } else if query.code is None {
        Some(plain(ErrorKind::ValidationError, "auth_code failed"@))
    } else if session.pkce_verifier is None {
        Some(plain(ErrorKind::ValidationError, "pkce_verifier is None"@))
    } else {
        None
    }
}

/// The session after the first step: destroyed on failure, else without its
/// `state`, which is used up.
pub open spec fn begin_session(session: SessionModel, query: CallbackQuery) -> SessionModel {
    if begin_failure(session, query) is Some {
        SessionModel::empty()
    } else {
        SessionModel { state: None, ..session }
    }
}

/// The reason in the record of a failed code exchange.
pub open spec fn exchange_reason(stage: ExchangeStage) -> Seq<char> {
    match stage {
        ExchangeStage::Request => "token_request failed"@,
        ExchangeStage::HttpClient => "http_client failed"@,
        ExchangeStage::Response => "token_response failed"@,
    }
}

/// Why the second step fails, if it does. In this order: the exchange
/// failed; the response has no lifetime; no expiry can be computed from it;
/// the response has no refresh token; it has no ID token; the session has no
/// nonce.
pub open spec fn tokens_failure(
    session: SessionModel,
    answer: Result<TokenGrant, ExchangeFailure>,
    now: i64,
) -> Option<FailureModel> {
    match answer {
        Err(failure) => Some(
            FailureModel {
                kind: ErrorKind::ExchangeError,
                reason: exchange_reason(failure.stage),
                detail: given(text(failure.detail)),
            },
        ),
        Ok(grant) => if grant.expires_in is None {
            Some(plain(ErrorKind::MissingExpiry, "missing expiry"@))
        } else if expiry_of(now, grant.expires_in->0) is None {
            Some(expiry_failure(grant.expires_in->0))
        } else if grant.refresh_token is None {
            Some(plain(ErrorKind::ExchangeError, "no refresh_token"@))
        } else if grant.id_token is None {
            Some(plain(ErrorKind::ExchangeError, "identification_token failed"@))
        } else if session.nonce is None {
            Some(plain(ErrorKind::ValidationError, "no nonce"@))
        } else {
            None
        },
    }
}

/// The session after the second step: destroyed on failure, else without
/// the PKCE verifier, which is used up, and with the access token, the
/// refresh token and the absolute expiry `now + expires_in`.
pub open spec fn tokens_session(
    session: SessionModel,
    answer: Result<TokenGrant, ExchangeFailure>,
    now: i64,
) -> SessionModel {
    if tokens_failure(session, answer, now) is Some {
        SessionModel::empty()
    } else {
        SessionModel {
            pkce_verifier: None,
            token_expiry: expiry_of(now, answer->Ok_0.expires_in->0),
            access_token: Some(answer->Ok_0.access_token@),
            refresh_token: text(answer->Ok_0.refresh_token),
            ..session
        }
    }
}

/// What the second step does at `now`: `after` and `step` are its results
/// on the session `before`.
pub open spec fn tokens_received(
    before: SessionModel,
    client_url: Seq<char>,
    answer: Result<TokenGrant, ExchangeFailure>,
    now: i64,
    after: SessionModel,
    step: Step,
) -> bool {
    &&& after == tokens_session(before, answer, now)
    &&& match tokens_failure(before, answer, now) {
        Some(failure) => step.rejects(failure, HANDLER@, client_url),
        None => step matches Step::VerifyIdToken { id_token, nonce } && Some(id_token@) == text(
            answer->Ok_0.id_token,
        ) && Some(nonce@) == before.nonce,
    }
}

/// Why the third step fails, if it does: the ID token did not verify, or
/// its claims name no user.
pub open spec fn claims_failure(verdict: Result<IdentityClaims, Option<String>>) -> Option<
    FailureModel,
> {
    match verdict {
        Err(detail) => Some(
            FailureModel {
                kind: ErrorKind::ClaimsVerificationError,
                reason: "id_token verification failed"@,
                detail: given(text(detail)),
            },
        ),
        Ok(claims) => if claims.preferred_username is None {
            Some(plain(ErrorKind::MissingIdentity, "no preferred_username"@))
        } else {
            None
        },
    }
}

/// The session after the third step: destroyed on failure, else with the ID
/// token and the user's name and id, and without the nonce, which is used
/// up.
pub open spec fn claims_session(
    session: SessionModel,
    id_token: Seq<char>,
    verdict: Result<IdentityClaims, Option<String>>,
) -> SessionModel {
    if claims_failure(verdict) is Some {
        SessionModel::empty()
    } else {
        SessionModel {
            nonce: None,
            id_token: Some(id_token),
            username: text(verdict->Ok_0.preferred_username),
            user_id: Some(verdict->Ok_0.subject@),
            ..session
        }
    }
}

/// First step of the callback. Checks the query against the session; where
/// the two `state` values are equal, character for character, removes the
/// session's and asks for the code to be exchanged with the PKCE verifier.
pub fn begin(
    session: &mut SessionRecord,
    config: &MainConfiguration,
    query: &CallbackQuery,
) -> (step: Step)
    ensures
        final(session)@ == begin_session(old(session)@, *query),
        match begin_failure(old(session)@, *query) {
            Some(failure) => step.rejects(failure, HANDLER@, config.requesting_client_url@),
            None => step matches Step::ExchangeCode { code, pkce_verifier } && Some(code@) == text(
                query.code,
            ) && Some(pkce_verifier@) == old(session)@.pkce_verifier,
        },
{
    let rurl = config.requesting_client_url.as_str();
    match &query.error {
        Some(error) => {
            let description = match &query.error_description {
                Some(description) => description.as_str(),
                None => "",
            };
            let mut reason = String::from_str("oauth_error: ");
            reason.append(debug_quoted(description).as_str());
            let detail = debug_quoted(error.as_str());
            return reject(
                session,
                rurl,
                ErrorKind::ProviderError,
                HANDLER,
                reason.as_str(),
                Some(detail),
            );
        },
        None => {},
    }
    let returned_state = match &query.state {
        Some(state) => state,
        None => {
            return reject(
                session,
                rurl,
                ErrorKind::ValidationError,
                HANDLER,
                "no state in query",
                None,
            );
        },
    };
    let matches = match &session.state {
        Some(stored) => *stored == *returned_state,
        None => {
            return reject(
                session,
                rurl,
                ErrorKind::ValidationError,
                HANDLER,
                "no state in session",
                None,
            );
        },
    };
    if !matches {
        return reject(session, rurl, ErrorKind::ValidationError, HANDLER, "state mismatch", None);
    }
    session.state = None;
    let code = match &query.code {
        Some(code) => code.clone(),
        None => {
            return reject(
                session,
                rurl,
                ErrorKind::ValidationError,
                HANDLER,
                "auth_code failed",
                None,
            );
        },
    };
    let pkce_verifier = match &session.pkce_verifier {
        Some(verifier) => verifier.clone(),
        None => {
            return reject(
                session,
                rurl,
                ErrorKind::ValidationError,
                HANDLER,
                "pkce_verifier is None",
                None,
            );
        },
    };
    Step::ExchangeCode { code, pkce_verifier }
}

/// Second step of the callback, at the time `now`. Takes the answer to the
/// code exchange: removes the PKCE verifier, stores the absolute expiry, the
/// access token and the refresh token, and asks for the ID token to be
/// verified against the session's nonce.
pub fn receive_tokens_at(
    session: &mut SessionRecord,
    config: &MainConfiguration,
    answer: Result<TokenGrant, ExchangeFailure>,
    now: i64,
) -> (step: Step)
    ensures
        tokens_received(
            old(session)@,
            config.requesting_client_url@,
            answer,
            now,
            final(session)@,
            step,
        ),
{
    let rurl = config.requesting_client_url.as_str();
    let grant = match answer {
        Ok(grant) => grant,
        Err(failure) => {
            let reason = match failure.stage {
                ExchangeStage::Request => "token_request failed",
                ExchangeStage::HttpClient => "http_client failed",
                ExchangeStage::Response => "token_response failed",
            };
            return reject(session, rurl, ErrorKind::ExchangeError, HANDLER, reason, failure.detail);
        },
    };
    session.pkce_verifier = None;
    let lifetime: u64 = match grant.expires_in {
        Some(lifetime) => lifetime,
        None => {
            return reject(session, rurl, ErrorKind::MissingExpiry, HANDLER, "missing expiry", None);
        },
    };
    let expiry: i64 = match absolute_expiry(now, lifetime) {
        Ok(expiry) => expiry,
        Err(detail) => {
            return reject(
                session,
                rurl,
                ErrorKind::MissingExpiry,
                HANDLER,
                "expiry failed",
                detail,
            );
        },
    };
    session.token_expiry = Some(expiry);
    session.access_token = Some(grant.access_token);
    let refresh_token = match grant.refresh_token {
        Some(token) => token,
        None => {
            return reject(
                session,
                rurl,
                ErrorKind::ExchangeError,
                HANDLER,
                "no refresh_token",
                None,
            );
        },
    };
    session.refresh_token = Some(refresh_token);
    let id_token = match grant.id_token {
        Some(token) => token,
        None => {
            return reject(
                session,
                rurl,
                ErrorKind::ExchangeError,
                HANDLER,
                "identification_token failed",
                None,
            );
        },
    };
    let nonce = match &session.nonce {
        Some(nonce) => nonce.clone(),
        None => {
            return reject(session, rurl, ErrorKind::ValidationError, HANDLER, "no nonce", None);
        },
    };
    Step::VerifyIdToken { id_token, nonce }
}

/// Second step of the callback, at the time that the system clock gives.
/// Whatever the clock gives is a time at which every lifetime that a
/// duration holds has an expiry, so the step fails for the reasons of
/// `tokens_failure` and no other.
pub fn receive_tokens(
    session: &mut SessionRecord,
    config: &MainConfiguration,
    answer: Result<TokenGrant, ExchangeFailure>,
) -> (step: Step)
    ensures
        exists|now: i64|
            clock_reading(now) && #[trigger] tokens_received(
                old(session)@,
                config.requesting_client_url@,
                answer,
                now,
                final(session)@,
                step,
            ),
{
    let at: i64 = unix_now();
    receive_tokens_at(session, config, answer, at)
}

/// Third step of the callback. Takes the verdict on the ID token: stores
/// the token, removes the nonce, stores the user's name and id, and sends
/// the browser to the client application.
pub fn receive_claims(
    session: &mut SessionRecord,
    config: &MainConfiguration,
    id_token: String,
    verdict: Result<IdentityClaims, Option<String>>,
) -> (step: Step)
    ensures
        final(session)@ == claims_session(old(session)@, id_token@, verdict),
        match claims_failure(verdict) {
            Some(failure) => step.rejects(failure, HANDLER@, config.requesting_client_url@),
            None => step.replies(ReplyModel::Found { location: config.requesting_client_url@ }),
        },
{
    let rurl = config.requesting_client_url.as_str();
    let claims = match verdict {
        Ok(claims) => claims,
        Err(detail) => {
            return reject(
                session,
                rurl,
                ErrorKind::ClaimsVerificationError,
                HANDLER,
                "id_token verification failed",
                detail,
            );
        },
    };
    session.id_token = Some(id_token);
    session.nonce = None;
    let username = match claims.preferred_username {
        Some(name) => name,
        None => {
            return reject(
                session,
                rurl,
                ErrorKind::MissingIdentity,
                HANDLER,
                "no preferred_username",
                None,
            );
        },
    };
    session.username = Some(username);
    session.user_id = Some(claims.subject);
    Step::Reply(Reply::Found { location: config.requesting_client_url.clone() })
}

/// Whether a whole callback succeeds: none of its three steps fails.
pub open spec fn callback_succeeds(
    session: SessionModel,
    query: CallbackQuery,
    answer: Result<TokenGrant, ExchangeFailure>,
    now: i64,
    verdict: Result<IdentityClaims, Option<String>>,
) -> bool {
    &&& begin_failure(session, query) is None
    &&& tokens_failure(begin_session(session, query), answer, now) is None
    &&& claims_failure(verdict) is None
}

/// The session at the end of a whole callback: the three steps in turn,
/// each on the session that the one before left, up to the first that fails.
pub open spec fn callback_session(
    session: SessionModel,
    query: CallbackQuery,
    answer: Result<TokenGrant, ExchangeFailure>,
    now: i64,
    verdict: Result<IdentityClaims, Option<String>>,
) -> SessionModel {
    let first = begin_session(session, query);
    let second = tokens_session(first, answer, now);
    if begin_failure(session, query) is Some {
        first
    } else if tokens_failure(first, answer, now) is Some {
        second
    } else {
        claims_session(second, answer->Ok_0.id_token->0@, verdict)
    }
}

/// A callback whose `state` is not the one in the session fails and
/// destroys the session: whether the query's is missing, the session's is
/// missing, or the two differ in a single character.
pub proof fn lemma_state_mismatch_purges(session: SessionModel, query: CallbackQuery)
    requires
        text(query.state) != session.state || query.state is None,
    ensures
        begin_failure(session, query) is Some,
        begin_session(session, query).is_empty(),
{
}

/// A callback ends in one of two states, whatever the session, the query
/// and the provider's answers were: a complete signed-in record where it
/// succeeds, the empty session where it fails. The values of a login in
/// progress are never left beside tokens.
pub proof fn lemma_callback_ends_settled(
    session: SessionModel,
    query: CallbackQuery,
    answer: Result<TokenGrant, ExchangeFailure>,
    now: i64,
    verdict: Result<IdentityClaims, Option<String>>,
)
    ensures
        ({
            let end = callback_session(session, query, answer, now, verdict);
            &&& callback_succeeds(session, query, answer, now, verdict) ==> end.signed_in()
            &&& !callback_succeeds(session, query, answer, now, verdict) ==> end.is_empty()
            &&& !(end.has_ephemeral() && end.has_authenticated())
        }),
{
}

/// A callback that succeeded cannot be replayed: on the session that it
/// left, every further callback fails at its first step, and destroys the
/// session.
pub proof fn lemma_callback_not_replayable(
    session: SessionModel,
    query: CallbackQuery,
    answer: Result<TokenGrant, ExchangeFailure>,
    now: i64,
    verdict: Result<IdentityClaims, Option<String>>,
    replay: CallbackQuery,
)
    requires
        callback_succeeds(session, query, answer, now, verdict),
    ensures
        ({
            let end = callback_session(session, query, answer, now, verdict);
            &&& end.state is None && end.pkce_verifier is None && end.nonce is None
            &&& begin_failure(end, replay) is Some
            &&& begin_session(end, replay).is_empty()
        }),
{
}

/// A login that was begun is completed by the callback that answers it: on
/// the session that begin-login left, a callback without error that carries
/// the stored `state` and a code succeeds, provided that the exchange
/// answers with a lifetime from which an expiry can be computed, a refresh
/// token and an ID token, and that the ID token verifies and names the
/// user. The session then holds exactly these tokens, the expiry
/// `now + expires_in`, and the user's name and id.
pub proof fn lemma_login_is_completed_by_its_callback(
    session: SessionModel,
    pkce_verifier: Seq<char>,
    state: Seq<char>,
    nonce: Seq<char>,
    query: CallbackQuery,
    grant: TokenGrant,
    now: i64,
    claims: IdentityClaims,
)
    requires
        query.error is None,
        text(query.state) == Some(state),
        query.code is Some,
        grant.expires_in matches Some(lifetime) && expiry_of(now, lifetime) is Some,
        grant.refresh_token is Some,
        grant.id_token is Some,
        claims.preferred_username is Some,
    ensures
        ({
            let begun = login_begun(session, pkce_verifier, state, nonce);
            let answer = Ok::<TokenGrant, ExchangeFailure>(grant);
            let verdict = Ok::<IdentityClaims, Option<String>>(claims);
            let end = callback_session(begun, query, answer, now, verdict);
            &&& callback_succeeds(begun, query, answer, now, verdict)
            &&& end.signed_in()
            &&& end.access_token == Some(grant.access_token@)
            &&& end.refresh_token == text(grant.refresh_token)
            &&& end.id_token == text(grant.id_token)
            &&& end.token_expiry == Some(now + grant.expires_in->0)
            &&& end.username == text(claims.preferred_username)
            &&& end.user_id == Some(claims.subject@)
        }),
{
}

} // verus!
