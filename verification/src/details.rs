//! User details: the name and id of the signed-in user.
//!
//! A session without identity is not by itself an error. Whether it fails
//! the request or is answered with the configured defaults is a matter of
//! configuration.

use crate::error::plain;
use crate::error::ErrorKind;
use crate::error::FailureModel;
use crate::reply::reject;
use crate::reply::Reply;
use crate::reply::ReplyModel;
use crate::reply::Step;
use crate::session::SessionModel;
use crate::session::SessionRecord;
use crate::settings::MainConfiguration;
use vstd::prelude::*;

verus! {

/// The handler's name in the log.
pub const HANDLER: &'static str = "details";

/// Why the request fails, if it does: only where the configuration asks for
/// it, and then for a session without user name, or with a name and without
/// user id.
pub open spec fn details_failure(session: SessionModel, config: MainConfiguration) -> Option<
    FailureModel,
> {
    if !config.user_details_fail_when_not_authenticated {
        None
    } else if session.username is None {
        Some(plain(ErrorKind::MissingIdentity, "no username in session"@))
    } else if session.user_id is None {
        Some(plain(ErrorKind::MissingIdentity, "no user_id in session"@))
    } else {
        None
    }
}

/// The details in the reply: the session's, where it has both name and id;
/// the configured defaults for both otherwise.
pub open spec fn details_of(session: SessionModel, config: MainConfiguration) -> ReplyModel {
    if session.username is Some && session.user_id is Some {
        ReplyModel::UserDetails { username: session.username->0, user_id: session.user_id->0 }
    } else {
        ReplyModel::UserDetails {
            username: config.default_username@,
            user_id: config.default_user_id@,
        }
    }
}

/// Answers with the user's name and id. Only a failure changes the session.
pub fn user_details(session: &mut SessionRecord, config: &MainConfiguration) -> (step: Step)
    ensures
        match details_failure(old(session)@, *config) {
            Some(failure) => final(session)@.is_empty() && step.rejects(
                failure,
                HANDLER@,
                config.requesting_client_url@,
            ),
            None => final(session)@ == old(session)@ && step.replies(
                details_of(old(session)@, *config),
            ),
        },
{
    let rurl = config.requesting_client_url.as_str();
    let username = match &session.username {
        Some(name) => name.clone(),
        None => {
            if config.user_details_fail_when_not_authenticated {
                return reject(
                    session,
                    rurl,
                    ErrorKind::MissingIdentity,
                    HANDLER,
                    "no username in session",
                    None,
                );
            } else {
                return Step::Reply(
                    Reply::UserDetails {
                        username: config.default_username.clone(),
                        user_id: config.default_user_id.clone(),
                    },
                );
            }
        },
    };
    let user_id = match &session.user_id {
        Some(id) => id.clone(),
        None => {
            if config.user_details_fail_when_not_authenticated {
                return reject(
                    session,
                    rurl,
                    ErrorKind::MissingIdentity,
                    HANDLER,
                    "no user_id in session",
                    None,
                );
            } else {
                return Step::Reply(
                    Reply::UserDetails {
                        username: config.default_username.clone(),
                        user_id: config.default_user_id.clone(),
                    },
                );
            }
        },
    };
    Step::Reply(Reply::UserDetails { username, user_id })
}

} // verus!
