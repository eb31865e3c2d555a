//! Logout: destroy the session and send the browser to the provider's
//! end-session endpoint.

use crate::error::given;
use crate::error::plain;
use crate::error::DetailModel;
use crate::error::Error;
use crate::error::ErrorKind;
use crate::error::FailureModel;
use crate::reply::reject;
use crate::reply::Reply;
use crate::reply::ReplyModel;
use crate::reply::Step;
use crate::session::text;
use crate::session::SessionRecord;
use crate::settings::MainConfiguration;
use vstd::prelude::*;

verus! {

/// The handler's name in the log.
pub const HANDLER: &'static str = "logout";

/// Name of the query parameter that carries the ID token.
pub const ID_TOKEN_HINT: &'static str = "id_token_hint";

/// Name of the query parameter that carries the address to return to.
pub const POST_LOGOUT_REDIRECT_URI: &'static str = "post_logout_redirect_uri";

/// The most characters that an address and the two pairs added to it may
/// have together. The `url` crate addresses a URL by 32-bit offsets; within
/// this bound no URL that it builds outgrows them, however the characters
/// are encoded.
pub const MAX_URL_CHARS: usize = 0x1000_0000;

/// The error of the `url` crate's parser.
#[verifier::external_type_specification]
#[verifier::external_body]
pub struct ExParseError(url::ParseError);

/// The address `base` as the `url` crate parses and writes it, with two
/// pairs added to its query in the `application/x-www-form-urlencoded`
/// syntax; `None` where `base` is no absolute URL.
pub uninterp spec fn url_with_pairs(
    base: Seq<char>,
    first_key: Seq<char>,
    first_value: Seq<char>,
    second_key: Seq<char>,
    second_value: Seq<char>,
) -> Option<Seq<char>>;

/// The texts are together short enough for a URL to be built from them.
pub open spec fn fits_url(
    base: Seq<char>,
    first_key: Seq<char>,
    first_value: Seq<char>,
    second_key: Seq<char>,
    second_value: Seq<char>,
) -> bool {
    base.len() + first_key.len() + first_value.len() + second_key.len() + second_value.len()
        <= MAX_URL_CHARS
}

/// `Url::parse` on `base`, then `query_pairs_mut().append_pair` for each of
/// the two pairs, then the URL as text. The result is a function of the five
/// texts; it is an error exactly where `Url::parse` refuses `base`.
#[verifier::external_body]
fn parse_and_append(
    base: &str,
    first_key: &str,
    first_value: &str,
    second_key: &str,
    second_value: &str,
) -> (built: Result<String, url::ParseError>)
    requires
        fits_url(base@, first_key@, first_value@, second_key@, second_value@),
    ensures
        built is Ok <==> url_with_pairs(
            base@,
            first_key@,
            first_value@,
            second_key@,
            second_value@,
        ) is Some,
        built matches Ok(address) ==> Some(address@) == url_with_pairs(
            base@,
            first_key@,
            first_value@,
            second_key@,
            second_value@,
        ),
{
    let mut url = url::Url::parse(base)?;
    url.query_pairs_mut().append_pair(first_key, first_value).append_pair(second_key, second_value);
    Ok(url.as_str().to_string())
}

/// The failure of a logout whose end-session address cannot be built.
pub open spec fn bad_address(detail: DetailModel) -> FailureModel {
    FailureModel {
        kind: ErrorKind::ValidationError,
        reason: "bad end session url"@,
        detail,
    }
}

/// The end-session address of a logout: the configured endpoint with the ID
/// token as `id_token_hint` and the client application as
/// `post_logout_redirect_uri`.
pub open spec fn end_session_address(id_token: Seq<char>, config: MainConfiguration) -> Option<
    Seq<char>,
> {
    url_with_pairs(
        config.logout_url@,
        ID_TOKEN_HINT@,
        id_token,
        POST_LOGOUT_REDIRECT_URI@,
        config.requesting_client_url@,
    )
}

/// Whether the five texts are together short enough for a URL to be built
/// from them.
fn fits(
    base: &str,
    first_key: &str,
    first_value: &str,
    second_key: &str,
    second_value: &str,
) -> (fits: bool)
    ensures
        fits == fits_url(base@, first_key@, first_value@, second_key@, second_value@),
{
    let total: u128 = base.unicode_len() as u128 + first_key.unicode_len() as u128
        + first_value.unicode_len() as u128 + second_key.unicode_len() as u128
        + second_value.unicode_len() as u128;
    total <= MAX_URL_CHARS as u128
}

/// Ends a logout whose end-session address was built, or could not be:
/// destroys the session in either case, and redirects to the address, or
/// fails with the detail given.
pub fn conclude_logout(
    session: &mut SessionRecord,
    config: &MainConfiguration,
    address: Result<String, Option<String>>,
) -> (step: Step)
    ensures
        final(session)@.is_empty(),
        match address {
            Ok(location) => step.replies(ReplyModel::Found { location: location@ }),
            Err(detail) => step.rejects(
                bad_address(given(text(detail))),
                HANDLER@,
                config.requesting_client_url@,
            ),
        },
        address matches Err(Some(_)) ==> step.rejects(
            bad_address(DetailModel::Rendered),
            HANDLER@,
            config.requesting_client_url@,
        ),
{
    match address {
        Ok(location) => {
            session.purge();
            Step::Reply(Reply::Found { location })
        },
        Err(detail) => reject(
            session,
            config.requesting_client_url.as_str(),
            ErrorKind::ValidationError,
            HANDLER,
            "bad end session url",
            detail,
        ),
    }
}

/// Logs out. The session is destroyed whatever it holds and however the
/// request ends. With an ID token in the session the browser is sent to the
/// end-session address; without one the request fails, and so it does where
/// the configured endpoint is no URL, or where the texts are too long for
/// one.
pub fn logout(session: &mut SessionRecord, config: &MainConfiguration) -> (step: Step)
    ensures
        final(session)@.is_empty(),
        match old(session)@.id_token {
            None => step.rejects(
                plain(ErrorKind::ValidationError, "no id token"@),
                HANDLER@,
                config.requesting_client_url@,
            ),
            Some(id_token) => if !fits_url(
                config.logout_url@,
                ID_TOKEN_HINT@,
                id_token,
                POST_LOGOUT_REDIRECT_URI@,
                config.requesting_client_url@,
            ) {
                step.rejects(
                    bad_address(DetailModel::Absent),
                    HANDLER@,
                    config.requesting_client_url@,
                )
            } else {
                match end_session_address(id_token, *config) {
                    Some(location) => step.replies(ReplyModel::Found { location }),
                    None => step.rejects(
                        bad_address(DetailModel::Rendered),
                        HANDLER@,
                        config.requesting_client_url@,
                    ),
                }
            },
        },
{
    let built = match &session.id_token {
        Some(id_token) => {
            if fits(
                config.logout_url.as_str(),
                ID_TOKEN_HINT,
                id_token.as_str(),
                POST_LOGOUT_REDIRECT_URI,
                config.requesting_client_url.as_str(),
            ) {
                parse_and_append(
                    config.logout_url.as_str(),
                    ID_TOKEN_HINT,
                    id_token.as_str(),
                    POST_LOGOUT_REDIRECT_URI,
                    config.requesting_client_url.as_str(),
                )
            } else {
                return conclude_logout(session, config, Err(None));
            }
        },
        None => {
            return reject(
                session,
                config.requesting_client_url.as_str(),
                ErrorKind::ValidationError,
                HANDLER,
                "no id token",
                None,
            );
        },
    };
    let address = match built {
        Ok(location) => Ok(location),
        Err(error) => Err(Error::fmt(error)),
    };
    conclude_logout(session, config, address)
}

} // verus!
