//! The session record: the only state the flow keeps between requests.

use vstd::prelude::*;

verus! {

/// The characters of an optional text field.
pub open spec fn text(field: Option<String>) -> Option<Seq<char>> {
    match field {
        Some(s) => Some(s@),
        None => None,
    }
}

/// The fields of a session record.
#[derive(Debug, Clone, Copy, PartialEq, Eq, Structural)]
pub enum Field {
    PkceVerifier,
    State,
    Nonce,
    AccessToken,
    RefreshToken,
    IdToken,
    TokenExpiry,
    Username,
    UserId,
}

/// The key under which a field is kept in the session store.
pub open spec fn field_key(field: Field) -> Seq<char> {
    match field {
        Field::PkceVerifier => "pkce_verifier"@,
        Field::State => "state"@,
        Field::Nonce => "nonce"@,
        Field::AccessToken => "access_token"@,
        Field::RefreshToken => "refresh_token"@,
        Field::IdToken => "id_token"@,
        Field::TokenExpiry => "token_expiry"@,
        Field::Username => "username"@,
        Field::UserId => "user_id"@,
    }
}

impl Field {
    /// The key under which the field is kept in the session store.
    pub fn key(self) -> (key: &'static str)
        ensures
            key@ == field_key(self),
    {
        match self {
            Field::PkceVerifier => "pkce_verifier",
            Field::State => "state",
            Field::Nonce => "nonce",
            Field::AccessToken => "access_token",
            Field::RefreshToken => "refresh_token",
            Field::IdToken => "id_token",
            Field::TokenExpiry => "token_expiry",
            Field::Username => "username",
            Field::UserId => "user_id",
        }
    }
}

/// What a browser session holds, field by field. The three fields of the
/// first group live between a begun login and its callback; the others
/// describe a signed-in user.
#[derive(Debug, Clone, PartialEq, Eq)]
pub struct SessionRecord {
    pub pkce_verifier: Option<String>,
    pub state: Option<String>,
    pub nonce: Option<String>,
    pub access_token: Option<String>,
    pub refresh_token: Option<String>,
    pub id_token: Option<String>,
    /// Absolute expiry of the access token, in seconds since the Unix epoch.
    pub token_expiry: Option<i64>,
    pub username: Option<String>,
    pub user_id: Option<String>,
}

/// A session record as a mathematical value.
pub ghost struct SessionModel {
    pub pkce_verifier: Option<Seq<char>>,
    pub state: Option<Seq<char>>,
    pub nonce: Option<Seq<char>>,
    pub access_token: Option<Seq<char>>,
    pub refresh_token: Option<Seq<char>>,
    pub id_token: Option<Seq<char>>,
    pub token_expiry: Option<int>,
    pub username: Option<Seq<char>>,
    pub user_id: Option<Seq<char>>,
}

impl SessionModel {
    /// The session with no field set.
    pub open spec fn empty() -> SessionModel {
        SessionModel {
            pkce_verifier: None,
            state: None,
            nonce: None,
            access_token: None,
            refresh_token: None,
            id_token: None,
            token_expiry: None,
            username: None,
            user_id: None,
        }
    }

    pub open spec fn is_empty(self) -> bool {
        self == SessionModel::empty()
    }

    /// Some field of a login in progress is set.
    pub open spec fn has_ephemeral(self) -> bool {
        self.pkce_verifier is Some || self.state is Some || self.nonce is Some
    }

    /// Some token field is set.
    pub open spec fn has_authenticated(self) -> bool {
        self.access_token is Some || self.refresh_token is Some || self.id_token is Some
            || self.token_expiry is Some
    }

    /// Every token and identity field is set and no login is in progress.
    pub open spec fn signed_in(self) -> bool {
        &&& !self.has_ephemeral()
        &&& self.access_token is Some
        &&& self.refresh_token is Some
        &&& self.id_token is Some
        &&& self.token_expiry is Some
        &&& self.username is Some
        &&& self.user_id is Some
    }

    /// A state in which a request may end: nothing at all, or a complete
    /// signed-in record.
    pub open spec fn settled(self) -> bool {
        self.is_empty() || self.signed_in()
    }
}

impl View for SessionRecord {
    type V = SessionModel;

    open spec fn view(&self) -> SessionModel {
        SessionModel {
            pkce_verifier: text(self.pkce_verifier),
            state: text(self.state),
            nonce: text(self.nonce),
            access_token: text(self.access_token),
            refresh_token: text(self.refresh_token),
            id_token: text(self.id_token),
            token_expiry: match self.token_expiry {
                Some(t) => Some(t as int),
                None => None,
            },
            username: text(self.username),
            user_id: text(self.user_id),
        }
    }
}

impl SessionRecord {
    /// A session as it is on first contact: nothing set.
    pub fn new() -> (record: SessionRecord)
        ensures
            record@.is_empty(),
    {
        SessionRecord {
            pkce_verifier: None,
            state: None,
            nonce: None,
            access_token: None,
            refresh_token: None,
            id_token: None,
            token_expiry: None,
            username: None,
            user_id: None,
        }
    }

    /// Destroys the record: every field is cleared, whatever it held.
    pub fn purge(&mut self)
        ensures
            final(self)@.is_empty(),
    {
        self.pkce_verifier = None;
        self.state = None;
        self.nonce = None;
        self.access_token = None;
        self.refresh_token = None;
        self.id_token = None;
        self.token_expiry = None;
        self.username = None;
        self.user_id = None;
    }

    /// Whether no field is set.
    pub fn is_empty(&self) -> (empty: bool)
        ensures
            empty == self@.is_empty(),
    {
        self.pkce_verifier.is_none() && self.state.is_none() && self.nonce.is_none()
            && self.access_token.is_none() && self.refresh_token.is_none()
            && self.id_token.is_none() && self.token_expiry.is_none() && self.username.is_none()
            && self.user_id.is_none()
    }
}

} // verus!
