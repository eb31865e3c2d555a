use gobsg::session::Field;
use gobsg::session::SessionRecord;

#[test]
fn new_session_is_empty() {
    let record = SessionRecord::new();
    assert!(record.is_empty());
    assert_eq!(record.state, None);
    assert_eq!(record.token_expiry, None);
}

#[test]
fn session_with_one_field_is_not_empty() {
    let mut record = SessionRecord::new();
    record.token_expiry = Some(0);
    assert!(!record.is_empty());
    let mut other = SessionRecord::new();
    other.user_id = Some(String::from("u-1"));
    assert!(!other.is_empty());
}

#[test]
fn purge_clears_every_field() {
    let mut record = SessionRecord {
        pkce_verifier: Some(String::from("v")),
        state: Some(String::from("s")),
        nonce: Some(String::from("n")),
        access_token: Some(String::from("at")),
        refresh_token: Some(String::from("rt")),
        id_token: Some(String::from("idt")),
        token_expiry: Some(17),
        username: Some(String::from("alice")),
        user_id: Some(String::from("u-1")),
    };
    record.purge();
    assert!(record.is_empty());
    assert_eq!(record, SessionRecord::new());
}

#[test]
fn field_keys_are_the_store_keys() {
    assert_eq!(Field::PkceVerifier.key(), "pkce_verifier");
    assert_eq!(Field::State.key(), "state");
    assert_eq!(Field::Nonce.key(), "nonce");
    assert_eq!(Field::AccessToken.key(), "access_token");
    assert_eq!(Field::RefreshToken.key(), "refresh_token");
    assert_eq!(Field::IdToken.key(), "id_token");
    assert_eq!(Field::TokenExpiry.key(), "token_expiry");
    assert_eq!(Field::Username.key(), "username");
    assert_eq!(Field::UserId.key(), "user_id");
}
