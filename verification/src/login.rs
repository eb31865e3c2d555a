//! Begin-login: generate the PKCE verifier, the CSRF state and the nonce,
//! keep them in the session for the callback, and send the browser to the
//! provider.

use crate::reply::Reply;
use crate::reply::ReplyModel;
use crate::reply::Step;
use crate::session::SessionModel;
use crate::session::SessionRecord;
use vstd::prelude::*;

verus! {

/// The handler's name in the log.
pub const HANDLER: &'static str = "login";

/// `PkceCodeChallenge::new_random_sha256`, of which the verifier is kept:
/// 32 random bytes in URL-safe base64 without padding, which is 43
/// characters, the shortest verifier that PKCE admits.
#[verifier::external_body]
fn random_pkce_verifier() -> (verifier: String)
    ensures
        verifier@.len() == 43,
{
    let (_challenge, verifier) = openidconnect::PkceCodeChallenge::new_random_sha256();
    verifier.secret().clone()
}

/// `CsrfToken::new_random`: 16 random bytes in URL-safe base64 without
/// padding, which is 22 characters.
#[verifier::external_body]
fn random_state() -> (state: String)
    ensures
        state@.len() == 22,
{
    openidconnect::CsrfToken::new_random().secret().clone()
}

/// `Nonce::new_random`: 16 random bytes in URL-safe base64 without padding,
/// which is 22 characters.
#[verifier::external_body]
fn random_nonce() -> (nonce: String)
    ensures
        nonce@.len() == 22,
{
    openidconnect::Nonce::new_random().secret().clone()
}

/// The session after a login has begun with these three values. Whatever
/// else the session held stays.
pub open spec fn login_begun(
    session: SessionModel,
    pkce_verifier: Seq<char>,
    state: Seq<char>,
    nonce: Seq<char>,
) -> SessionModel {
    SessionModel {
        pkce_verifier: Some(pkce_verifier),
        state: Some(state),
        nonce: Some(nonce),
        ..session
    }
}

/// The scopes that every login asks for, in order.
pub open spec fn is_login_scopes(scopes: Seq<String>) -> bool {
    &&& scopes.len() == 5
    &&& scopes[0]@ == "openid"@
    &&& scopes[1]@ == "profile"@
    &&& scopes[2]@ == "email"@
    &&& scopes[3]@ == "offline_access"@
    &&& scopes[4]@ == "groups"@
}

/// The scopes that every login asks for.
pub fn login_scopes() -> (scopes: Vec<String>)
    ensures
        is_login_scopes(scopes@),
{
    let mut scopes: Vec<String> = Vec::new();
    scopes.push(String::from_str("openid"));
    scopes.push(String::from_str("profile"));
    scopes.push(String::from_str("email"));
    scopes.push(String::from_str("offline_access"));
    scopes.push(String::from_str("groups"));
    scopes
}

/// Begins a login with the given verifier, state and nonce: stores them in
/// the session and asks for the authorization URL that carries them.
pub fn begin_login_with(
    session: &mut SessionRecord,
    pkce_verifier: String,
    state: String,
    nonce: String,
) -> (step: Step)
    ensures
        final(session)@ == login_begun(old(session)@, pkce_verifier@, state@, nonce@),
        step matches Step::Authorize { pkce_verifier: v, state: s, nonce: n, scopes }
            && v@ == pkce_verifier@ && s@ == state@ && n@ == nonce@ && is_login_scopes(scopes@),
{
    session.pkce_verifier = Some(pkce_verifier.clone());
    session.state = Some(state.clone());
    session.nonce = Some(nonce.clone());
    Step::Authorize { pkce_verifier, state, nonce, scopes: login_scopes() }
}

/// Begins a login: generates a fresh verifier, state and nonce, stores them
/// in the session and asks for the authorization URL that carries them.
/// The three values are never empty, and the verifier differs from the other
/// two.
pub fn begin_login(session: &mut SessionRecord) -> (step: Step)
    ensures
        step matches Step::Authorize { pkce_verifier, state, nonce, scopes } && {
            &&& final(session)@ == login_begun(old(session)@, pkce_verifier@, state@, nonce@)
            &&& pkce_verifier@.len() == 43
            &&& state@.len() == 22
            &&& nonce@.len() == 22
            &&& pkce_verifier@ != state@
            &&& pkce_verifier@ != nonce@
            &&& is_login_scopes(scopes@)
        },
{
    let pkce_verifier = random_pkce_verifier();
    let state = random_state();
    let nonce = random_nonce();
    begin_login_with(session, pkce_verifier, state, nonce)
}

/// Ends begin-login: sends the browser to the provider's authorization URL.
pub fn redirect_to_provider(authorization_url: String) -> (step: Step)
    ensures
        step.replies(ReplyModel::Found { location: authorization_url@ }),
{
    Step::Reply(Reply::Found { location: authorization_url })
}

/// After a login has begun, the session holds the three values it was begun
/// with; where these are non-empty and pairwise different, so are the three
/// fields.
pub proof fn lemma_login_fields_present_and_distinct(
    session: SessionModel,
    pkce_verifier: Seq<char>,
    state: Seq<char>,
    nonce: Seq<char>,
)
    requires
        pkce_verifier.len() > 0,
        state.len() > 0,
        nonce.len() > 0,
        pkce_verifier != state,
        pkce_verifier != nonce,
        state != nonce,
    ensures
        ({
            let after = login_begun(session, pkce_verifier, state, nonce);
            &&& after.pkce_verifier matches Some(v) && v.len() > 0
            &&& after.state matches Some(s) && s.len() > 0
            &&& after.nonce matches Some(n) && n.len() > 0
            &&& after.pkce_verifier != after.state
            &&& after.pkce_verifier != after.nonce
            &&& after.state != after.nonce
        }),
{
}

} // verus!
