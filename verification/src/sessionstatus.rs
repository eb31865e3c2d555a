//! Check-session-status: whether the session is signed in, refreshing the
//! access token when it has expired or is about to.
//!
//! A session without tokens is not an error: it is the ordinary answer
//! "not logged in". The provider is asked only when the stored expiry, less
//! the early-refresh skew, has been reached, and then exactly once: the
//! step that takes the provider's answer ends the request.

use crate::error::given;
use crate::error::plain;
use crate::error::ErrorKind;
use crate::error::FailureModel;
use crate::expiry::absolute_expiry;
use crate::expiry::clock_reading;
use crate::expiry::expiry_failure;
use crate::expiry::expiry_of;
use crate::expiry::is_usable;
use crate::expiry::unix_now;
use crate::expiry::usable_at;
use crate::provider::ExchangeFailure;
use crate::provider::ExchangeStage;
use crate::provider::TokenGrant;
use crate::reply::reject;
use crate::reply::Reply;
use crate::reply::ReplyModel;
use crate::reply::Step;
use crate::session::text;
use crate::session::SessionModel;
use crate::session::SessionRecord;
use crate::settings::MainConfiguration;
use vstd::prelude::*;

verus! {

/// The handler's name in the log.
pub const HANDLER: &'static str = "sessionstatus";

/// The session holds both tokens that a signed-in session has.
pub open spec fn has_tokens(session: SessionModel) -> bool {
    session.access_token is Some && session.refresh_token is Some
}

/// What the check does at `now`: `after` and `step` are its results on the
/// session `before`. Without an access token or without a refresh token the
/// answer is "not logged in"; tokens without an expiry are a failure; a
/// token still usable at `now` answers "logged in"; otherwise the refresh
/// token is to be exchanged. Only the failure changes the session.
pub open spec fn checked(
    before: SessionModel,
    config: MainConfiguration,
    now: i64,
    after: SessionModel,
    step: Step,
) -> bool {
    if !has_tokens(before) {
        after == before && step.replies(ReplyModel::SessionStatus { logged_in: false })
    } else if before.token_expiry is None {
        after.is_empty() && step.rejects(
            plain(ErrorKind::StorageError, "extracted_access_token failed"@),
            HANDLER@,
            config.requesting_client_url@,
        )
    } else if usable_at(
        now as int,
        before.token_expiry->0,
        config.early_refresh_skew_secs as int,
    ) {
        after == before && step.replies(ReplyModel::SessionStatus { logged_in: true })
    } else {
        &&& after == before
        &&& step matches Step::Refresh { refresh_token }
        &&& Some(refresh_token@) == before.refresh_token
    }
}

/// The reason in the record of a failed refresh.
pub open spec fn refresh_reason(stage: ExchangeStage) -> Seq<char> {
    match stage {
        ExchangeStage::Request => "refresh_token_request failed"@,
        ExchangeStage::HttpClient => "http_client failed"@,
        ExchangeStage::Response => "status token_response failed"@,
    }
}

/// Why the step after the refresh fails, if it does: the exchange failed;
/// the response has no lifetime; or no expiry can be computed from it.
pub open spec fn refresh_failure(answer: Result<TokenGrant, ExchangeFailure>, now: i64) -> Option<
    FailureModel,
> {
    match answer {
        Err(failure) => Some(
            FailureModel {
                kind: ErrorKind::ExchangeError,
                reason: refresh_reason(failure.stage),
                detail: given(text(failure.detail)),
            },
        ),
        Ok(grant) => if grant.expires_in is None {
            Some(plain(ErrorKind::MissingExpiry, "status missing expiry"@))
        } else if expiry_of(now, grant.expires_in->0) is None {
            Some(expiry_failure(grant.expires_in->0))
        } else {
            None
        },
    }
}

/// The session after the refresh: destroyed on failure, else with the new
/// access token and the absolute expiry `now + expires_in`, and with the new
/// refresh token where the provider sent one; the old one stays otherwise.
pub open spec fn refresh_session(
    session: SessionModel,
    answer: Result<TokenGrant, ExchangeFailure>,
    now: i64,
) -> SessionModel {
    if refresh_failure(answer, now) is Some {
        SessionModel::empty()
    } else {
        SessionModel {
            token_expiry: expiry_of(now, answer->Ok_0.expires_in->0),
            access_token: Some(answer->Ok_0.access_token@),
            refresh_token: if answer->Ok_0.refresh_token is Some {
                text(answer->Ok_0.refresh_token)
            } else {
                session.refresh_token
            },
            ..session
        }
    }
}

/// What the step after the refresh does at `now`: `after` and `step` are
/// its results on the session `before`. After a refresh that succeeded the
/// answer is "logged in" where the new token is usable at `now`, and "not
/// logged in" where it is not; the session is kept either way.
pub open spec fn refreshed(
    before: SessionModel,
    config: MainConfiguration,
    answer: Result<TokenGrant, ExchangeFailure>,
    now: i64,
    after: SessionModel,
    step: Step,
) -> bool {
    &&& after == refresh_session(before, answer, now)
    &&& match refresh_failure(answer, now) {
        Some(failure) => step.rejects(failure, HANDLER@, config.requesting_client_url@),
        None => step.replies(
            ReplyModel::SessionStatus {
                logged_in: usable_at(
                    now as int,
                    expiry_of(now, answer->Ok_0.expires_in->0)->0,
                    config.early_refresh_skew_secs as int,
                ),
            },
        ),
    }
}

/// The check, at the time `now`.
pub fn check_at(session: &mut SessionRecord, config: &MainConfiguration, now: i64) -> (step: Step)
    ensures
        checked(old(session)@, *config, now, final(session)@, step),
{
    if session.access_token.is_none() {
        return Step::Reply(Reply::SessionStatus { logged_in: false });
    }
    let refresh_token = match &session.refresh_token {
        Some(token) => token.clone(),
        None => {
            return Step::Reply(Reply::SessionStatus { logged_in: false });
        },
    };
    let expiry: i64 = match session.token_expiry {
        Some(expiry) => expiry,
        None => {
            return reject(
                session,
                config.requesting_client_url.as_str(),
                ErrorKind::StorageError,
                HANDLER,
                "extracted_access_token failed",
                None,
            );
        },
    };
    if is_usable(now, expiry, config.early_refresh_skew_secs) {
        Step::Reply(Reply::SessionStatus { logged_in: true })
    } else {
        Step::Refresh { refresh_token }
    }
}

/// The check, at the time that the system clock gives.
pub fn check(session: &mut SessionRecord, config: &MainConfiguration) -> (step: Step)
    ensures
        exists|now: i64|
            clock_reading(now) && #[trigger] checked(
                old(session)@,
                *config,
                now,
                final(session)@,
                step,
            ),
{
    let at: i64 = unix_now();
    check_at(session, config, at)
}

/// The step after the refresh, at the time `now`. Takes the answer to the
/// refresh-token exchange, stores the new expiry and tokens, and answers by
/// whether the new token is usable.
pub fn receive_refresh_at(
    session: &mut SessionRecord,
    config: &MainConfiguration,
    answer: Result<TokenGrant, ExchangeFailure>,
    now: i64,
) -> (step: Step)
    ensures
        refreshed(old(session)@, *config, answer, now, final(session)@, step),
{
    let rurl = config.requesting_client_url.as_str();
    let grant = match answer {
        Ok(grant) => grant,
        Err(failure) => {
            let reason = match failure.stage {
                ExchangeStage::Request => "refresh_token_request failed",
                ExchangeStage::HttpClient => "http_client failed",
                ExchangeStage::Response => "status token_response failed",
            };
            return reject(session, rurl, ErrorKind::ExchangeError, HANDLER, reason, failure.detail);
        },
    };
    let lifetime: u64 = match grant.expires_in {
        Some(lifetime) => lifetime,
        None => {
            return reject(
                session,
                rurl,
                ErrorKind::MissingExpiry,
                HANDLER,
                "status missing expiry",
                None,
            );
        },
    };
    let expiry: i64 = match absolute_expiry(now, lifetime) {
        Ok(expiry) => expiry,
        Err(detail) => {
            return reject(
                session,
                rurl,
                ErrorKind::MissingExpiry,
                HANDLER,
                "expiry failed",
                detail,
            );
        },
    };
    session.token_expiry = Some(expiry);
    session.access_token = Some(grant.access_token);
    match grant.refresh_token {
        Some(token) => {
            session.refresh_token = Some(token);
        },
        None => {},
    }
    Step::Reply(
        Reply::SessionStatus { logged_in: is_usable(now, expiry, config.early_refresh_skew_secs) },
    )
}

/// The step after the refresh, at the time that the system clock gives.
/// Whatever the clock gives is a time at which every lifetime that a
/// duration holds has an expiry, so the step fails for the reasons of
/// `refresh_failure` and no other.
pub fn receive_refresh(
    session: &mut SessionRecord,
    config: &MainConfiguration,
    answer: Result<TokenGrant, ExchangeFailure>,
) -> (step: Step)
    ensures
        exists|now: i64|
            clock_reading(now) && #[trigger] refreshed(
                old(session)@,
                *config,
                answer,
                now,
                final(session)@,
                step,
            ),
{
    let at: i64 = unix_now();
    receive_refresh_at(session, config, answer, at)
}

/// While the stored expiry, less the skew, lies ahead, the provider is not
/// asked and the session is left as it is; a session that holds its tokens
/// is answered "logged in".
pub proof fn lemma_usable_token_needs_no_refresh(
    before: SessionModel,
    config: MainConfiguration,
    now: i64,
    after: SessionModel,
    step: Step,
)
    requires
        checked(before, config, now, after, step),
        before.token_expiry matches Some(expiry) && now < expiry - config.early_refresh_skew_secs,
    ensures
        !(step is Refresh),
        after == before,
        step.replies(ReplyModel::SessionStatus { logged_in: has_tokens(before) }),
{
}

/// Once the stored expiry, less the skew, is reached, the check asks for one
/// refresh, with the stored refresh token; the step that takes the answer
/// asks for nothing more, and after a refresh that succeeded the stored
/// expiry is `now + expires_in`.
pub proof fn lemma_expired_token_refreshes_once(
    before: SessionModel,
    config: MainConfiguration,
    now: i64,
    after: SessionModel,
    step: Step,
    answer: Result<TokenGrant, ExchangeFailure>,
    later: i64,
    end: SessionModel,
    last: Step,
)
    requires
        checked(before, config, now, after, step),
        has_tokens(before),
        before.token_expiry matches Some(expiry) && now >= expiry - config.early_refresh_skew_secs,
        refreshed(after, config, answer, later, end, last),
    ensures
        step matches Step::Refresh { refresh_token } && Some(refresh_token@)
            == before.refresh_token,
        last is Reply || last is Rejected,
        refresh_failure(answer, later) is None ==> end.token_expiry == Some(
            later + answer->Ok_0.expires_in->0,
        ),
{
}

/// The check and the refresh keep a signed-in session signed in, or destroy
/// it: no request leaves it with some of its tokens.
pub proof fn lemma_status_keeps_session_settled(
    before: SessionModel,
    config: MainConfiguration,
    now: i64,
    after: SessionModel,
    step: Step,
    answer: Result<TokenGrant, ExchangeFailure>,
    later: i64,
    end: SessionModel,
    last: Step,
)
    requires
        before.settled(),
        checked(before, config, now, after, step),
        refreshed(after, config, answer, later, end, last),
    ensures
        after.settled(),
        step is Refresh ==> end.settled(),
{
}

/// A refresh that succeeds moves the expiry strictly forward whenever the
/// new token outlives the old one: `now + expires_in` is later than the
/// expiry that was stored.
pub proof fn lemma_refresh_moves_expiry_forward(
    before: SessionModel,
    config: MainConfiguration,
    answer: Result<TokenGrant, ExchangeFailure>,
    now: i64,
    after: SessionModel,
    step: Step,
)
    requires
        refreshed(before, config, answer, now, after, step),
        refresh_failure(answer, now) is None,
        before.token_expiry matches Some(expiry) && expiry < now + answer->Ok_0.expires_in->0,
    ensures
        after.token_expiry matches Some(expiry) && expiry > before.token_expiry->0,
{
}

} // verus!
