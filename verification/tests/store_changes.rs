use gobsg::session::Field;
use gobsg::session::SessionRecord;
use gobsg::store::changes;
use gobsg::store::Change;
use gobsg::store::Stored;

fn stored_user() -> SessionRecord {
    SessionRecord {
        pkce_verifier: None,
        state: None,
        nonce: None,
        access_token: Some(String::from("AT1")),
        refresh_token: Some(String::from("RT1")),
        id_token: Some(String::from("idt")),
        token_expiry: Some(1_700_003_600),
        username: Some(String::from("alice")),
        user_id: Some(String::from("u-1")),
    }
}

fn text(value: &str) -> Stored {
    Stored::Text(String::from(value))
}

#[test]
fn unchanged_session_is_not_written() {
    assert_eq!(changes(&stored_user(), &stored_user()), vec![]);
    assert_eq!(changes(&SessionRecord::new(), &SessionRecord::new()), vec![]);
}

#[test]
fn destroyed_session_is_purged() {
    assert_eq!(changes(&stored_user(), &SessionRecord::new()), vec![Change::Purge]);
    let mut one = SessionRecord::new();
    one.state = Some(String::from("s"));
    assert_eq!(changes(&one, &SessionRecord::new()), vec![Change::Purge]);
}

#[test]
fn begun_login_inserts_three_values() {
    let mut after = stored_user();
    after.pkce_verifier = Some(String::from("v"));
    after.state = Some(String::from("s"));
    after.nonce = Some(String::from("n"));
    assert_eq!(
        changes(&stored_user(), &after),
        vec![
            Change::Insert(Field::PkceVerifier, text("v")),
            Change::Insert(Field::State, text("s")),
            Change::Insert(Field::Nonce, text("n")),
        ]
    );
}

#[test]
fn refresh_rewrites_what_it_changed() {
    let mut after = stored_user();
    after.access_token = Some(String::from("AT2"));
    after.token_expiry = Some(1_700_005_400);
    assert_eq!(
        changes(&stored_user(), &after),
        vec![
            Change::Insert(Field::AccessToken, text("AT2")),
            Change::Insert(Field::TokenExpiry, Stored::Time(1_700_005_400)),
        ]
    );
}

#[test]
fn completed_login_removes_what_it_used_up() {
    let mut before = SessionRecord::new();
    before.pkce_verifier = Some(String::from("v"));
    before.state = Some(String::from("s"));
    before.nonce = Some(String::from("n"));
    assert_eq!(
        changes(&before, &stored_user()),
        vec![
            Change::Remove(Field::PkceVerifier),
            Change::Remove(Field::State),
            Change::Remove(Field::Nonce),
            Change::Insert(Field::AccessToken, text("AT1")),
            Change::Insert(Field::RefreshToken, text("RT1")),
            Change::Insert(Field::IdToken, text("idt")),
            Change::Insert(Field::TokenExpiry, Stored::Time(1_700_003_600)),
            Change::Insert(Field::Username, text("alice")),
            Change::Insert(Field::UserId, text("u-1")),
        ]
    );
}

#[test]
fn removed_expiry_is_removed_from_the_store() {
    let mut after = stored_user();
    after.token_expiry = None;
    after.user_id = None;
    assert_eq!(
        changes(&stored_user(), &after),
        vec![Change::Remove(Field::TokenExpiry), Change::Remove(Field::UserId)]
    );
}

#[test]
fn first_value_of_an_empty_session() {
    let mut after = SessionRecord::new();
    after.token_expiry = Some(0);
    assert_eq!(
        changes(&SessionRecord::new(), &after),
        vec![Change::Insert(Field::TokenExpiry, Stored::Time(0))]
    );
}
