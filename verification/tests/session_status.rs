use gobsg::error::ErrorKind;
use gobsg::expiry::absolute_expiry;
use gobsg::expiry::is_usable;
use gobsg::expiry::CLOCK_LIMIT_SECS;
use gobsg::expiry::MAX_LIFETIME_SECS;
use gobsg::provider::ExchangeFailure;
use gobsg::provider::ExchangeStage;
use gobsg::provider::TokenGrant;
use gobsg::reply::Reply;
use gobsg::reply::Step;
use gobsg::session::SessionRecord;
use gobsg::sessionstatus::check;
use gobsg::sessionstatus::check_at;
use gobsg::sessionstatus::receive_refresh;
use gobsg::sessionstatus::receive_refresh_at;
use gobsg::settings::MainConfiguration;
use gobsg::settings::ReadConfiguration;

const NOW: i64 = 1_700_000_000;

fn status_config(skew: i64) -> MainConfiguration {
    MainConfiguration::resolve(
        ReadConfiguration {
            this_server_url: String::from("https://bff.example"),
            cookie_name: String::from("sid"),
            cookie_domain: String::from("example"),
            secret_cookie_hex_key: String::new(),
            requesting_client_url: String::from("https://app.example/"),
            issuer_url: String::from("https://idp.example/realm"),
            logout_url: String::from("https://idp.example/realm/logout"),
            client: String::from("bff"),
            client_secret: String::from("SECRET-REDACTED"),
            listen_address: None,
            listen_port: None,
            workers: None,
            redis_address: None,
            heartbeat_logging: None,
            heartbeat_interval_hours: None,
            machine_name: None,
            container_name: None,
            provider: None,
            keep_alive_time_secs: None,
            client_request_timeout_secs: None,
            client_disconnect_timeout_secs: None,
            max_connections: None,
            early_refresh_skew_secs: Some(skew),
            user_details_fail_when_not_authenticated: None,
            default_username: None,
            default_user_id: None,
        },
        2,
    )
}

fn signed_in(expiry: i64) -> SessionRecord {
    SessionRecord {
        pkce_verifier: None,
        state: None,
        nonce: None,
        access_token: Some(String::from("AT1")),
        refresh_token: Some(String::from("RT1")),
        id_token: Some(String::from("idt")),
        token_expiry: Some(expiry),
        username: Some(String::from("alice")),
        user_id: Some(String::from("u-1")),
    }
}

fn refreshed_grant(expires_in: Option<u64>, refresh_token: Option<&str>) -> TokenGrant {
    TokenGrant {
        access_token: String::from("AT2"),
        refresh_token: refresh_token.map(String::from),
        id_token: None,
        expires_in,
    }
}

fn status(logged_in: bool) -> Step {
    Step::Reply(Reply::SessionStatus { logged_in })
}

fn expect_status_rejected(step: Step, kind: ErrorKind, log: &str) {
    match step {
        Step::Rejected(actual, rejection) => {
            assert_eq!(actual, kind);
            assert_eq!(rejection.log, log);
            assert_eq!(rejection.reply, Reply::Found { location: String::from("https://app.example/") });
        }
        other => panic!("unexpected step {:?}", other),
    }
}

#[test]
fn status_scenario_refreshes_an_expired_token() {
    let config = status_config(120);
    let mut session = signed_in(NOW - 10);
    let step = check_at(&mut session, &config, NOW);
    assert_eq!(step, Step::Refresh { refresh_token: String::from("RT1") });
    assert_eq!(session, signed_in(NOW - 10));

    let end = receive_refresh_at(&mut session, &config, Ok(refreshed_grant(Some(1800), None)), NOW);
    assert_eq!(end, status(true));
    assert_eq!(session.token_expiry, Some(NOW + 1800));
    assert_eq!(session.access_token, Some(String::from("AT2")));
    assert_eq!(session.refresh_token, Some(String::from("RT1")));
    assert_eq!(session.username, Some(String::from("alice")));
}

#[test]
fn empty_session_is_not_logged_in() {
    let config = status_config(120);
    let mut session = SessionRecord::new();
    assert_eq!(check_at(&mut session, &config, NOW), status(false));
    assert!(session.is_empty());
}

#[test]
fn session_without_access_token_is_not_logged_in() {
    let config = status_config(120);
    let mut session = signed_in(NOW + 1_000);
    session.access_token = None;
    let before = session.clone();
    assert_eq!(check_at(&mut session, &config, NOW), status(false));
    assert_eq!(session, before);
}

#[test]
fn session_without_refresh_token_is_not_logged_in() {
    let config = status_config(120);
    let mut session = signed_in(NOW + 1_000);
    session.refresh_token = None;
    let before = session.clone();
    assert_eq!(check_at(&mut session, &config, NOW), status(false));
    assert_eq!(session, before);
}

#[test]
fn tokens_without_expiry_are_a_storage_error() {
    let config = status_config(120);
    let mut session = signed_in(0);
    session.token_expiry = None;
    let step = check_at(&mut session, &config, NOW);
    expect_status_rejected(step, ErrorKind::StorageError, "(sessionstatus) extracted_access_token failed");
    assert!(session.is_empty());
}

#[test]
fn usable_token_is_logged_in_without_refresh() {
    let config = status_config(120);
    let mut session = signed_in(NOW + 121);
    assert_eq!(check_at(&mut session, &config, NOW), status(true));
    assert_eq!(session, signed_in(NOW + 121));
}

#[test]
fn token_at_the_skew_boundary_is_refreshed() {
    let config = status_config(120);
    let mut session = signed_in(NOW + 120);
    assert_eq!(
        check_at(&mut session, &config, NOW),
        Step::Refresh { refresh_token: String::from("RT1") }
    );
    let mut later = signed_in(NOW + 119);
    assert!(matches!(check_at(&mut later, &config, NOW), Step::Refresh { .. }));
}

#[test]
fn extreme_times_do_not_wrap() {
    let config = status_config(i64::MAX);
    let mut session = signed_in(i64::MIN);
    assert!(matches!(check_at(&mut session, &config, i64::MAX), Step::Refresh { .. }));
    let negative = status_config(i64::MIN);
    let mut other = signed_in(i64::MAX);
    assert_eq!(check_at(&mut other, &negative, i64::MAX), status(true));
    assert!(is_usable(i64::MAX, i64::MAX, i64::MIN));
    assert!(!is_usable(i64::MIN, i64::MIN, i64::MAX));
    assert!(!is_usable(0, i64::MIN, i64::MAX));
}

#[test]
fn usable_means_now_before_expiry_less_skew() {
    assert!(is_usable(99, 220, 120));
    assert!(!is_usable(100, 220, 120));
    assert!(!is_usable(101, 220, 120));
    assert!(is_usable(-1, 0, 0));
    assert!(!is_usable(0, 0, 0));
    assert!(is_usable(100, 50, -51));
}

#[test]
fn absolute_expiry_adds_the_lifetime() {
    assert_eq!(absolute_expiry(1_700_000_000, 3600), Ok(1_700_003_600));
    assert_eq!(absolute_expiry(-10, 10), Ok(0));
    assert_eq!(absolute_expiry(0, 0), Ok(0));
    assert_eq!(absolute_expiry(i64::MAX, 0), Ok(i64::MAX));
    assert_eq!(absolute_expiry(i64::MAX, 1), Err(None));
    assert_eq!(absolute_expiry(0, 9_223_372_036_854_775), Ok(9_223_372_036_854_775));
    assert_eq!(
        absolute_expiry(0, 9_223_372_036_854_776),
        Err(Some(String::from("OutOfRangeError(())")))
    );
    assert_eq!(absolute_expiry(i64::MIN, u64::MAX), Err(Some(String::from("OutOfRangeError(())"))));
}

#[test]
fn check_reads_the_clock() {
    let config = status_config(120);
    let mut fresh = signed_in(i64::MAX);
    assert_eq!(check(&mut fresh, &config), status(true));
    // 2020-01-01: in the past for every run of this test.
    let mut stale = signed_in(1_577_836_800);
    assert_eq!(check(&mut stale, &config), Step::Refresh { refresh_token: String::from("RT1") });
}

#[test]
fn refresh_rotates_the_refresh_token_when_given() {
    let config = status_config(120);
    let mut session = signed_in(NOW - 10);
    let end = receive_refresh_at(&mut session, &config, Ok(refreshed_grant(Some(1800), Some("RT2"))), NOW);
    assert_eq!(end, status(true));
    assert_eq!(
        session,
        SessionRecord {
            access_token: Some(String::from("AT2")),
            refresh_token: Some(String::from("RT2")),
            token_expiry: Some(NOW + 1800),
            ..signed_in(NOW - 10)
        }
    );
}

#[test]
fn refresh_that_issues_a_short_lived_token_is_not_logged_in() {
    let config = status_config(120);
    let mut session = signed_in(NOW - 10);
    let end = receive_refresh_at(&mut session, &config, Ok(refreshed_grant(Some(120), None)), NOW);
    assert_eq!(end, status(false));
    assert_eq!(session.token_expiry, Some(NOW + 120));
    assert_eq!(session.access_token, Some(String::from("AT2")));

    let mut other = signed_in(NOW - 10);
    let end = receive_refresh_at(&mut other, &config, Ok(refreshed_grant(Some(121), None)), NOW);
    assert_eq!(end, status(true));
}

#[test]
fn refresh_can_move_the_expiry_back() {
    let config = status_config(120);
    let mut session = signed_in(NOW + 50);
    assert!(matches!(check_at(&mut session, &config, NOW), Step::Refresh { .. }));
    let end = receive_refresh_at(&mut session, &config, Ok(refreshed_grant(Some(10), None)), NOW);
    assert_eq!(end, status(false));
    assert_eq!(session.token_expiry, Some(NOW + 10));
}

#[test]
fn successful_refresh_moves_the_expiry_forward() {
    let config = status_config(120);
    for old in [NOW - 10, NOW, NOW + 120] {
        let mut session = signed_in(old);
        assert!(matches!(check_at(&mut session, &config, NOW), Step::Refresh { .. }));
        let _ = receive_refresh_at(&mut session, &config, Ok(refreshed_grant(Some(1800), None)), NOW);
        assert_eq!(session.token_expiry, Some(NOW + 1800));
        assert!(session.token_expiry.expect("stored") > old);
    }
}

#[test]
fn failed_refresh_is_reported_by_stage() {
    let config = status_config(120);
    let cases = vec![
        (ExchangeStage::Request, "(sessionstatus) refresh_token_request failed: boom"),
        (ExchangeStage::HttpClient, "(sessionstatus) http_client failed: boom"),
        (ExchangeStage::Response, "(sessionstatus) status token_response failed: boom"),
    ];
    for (stage, log) in cases {
        let mut session = signed_in(NOW - 10);
        let step = receive_refresh_at(
            &mut session,
            &config,
            Err(ExchangeFailure { stage, detail: Some(String::from("boom")) }),
            NOW,
        );
        expect_status_rejected(step, ErrorKind::ExchangeError, log);
        assert!(session.is_empty());
    }
}

#[test]
fn refresh_without_lifetime_fails() {
    let config = status_config(120);
    let mut session = signed_in(NOW - 10);
    let step = receive_refresh_at(&mut session, &config, Ok(refreshed_grant(None, Some("RT2"))), NOW);
    expect_status_rejected(step, ErrorKind::MissingExpiry, "(sessionstatus) status missing expiry");
    assert!(session.is_empty());
}

#[test]
fn refresh_with_unusable_lifetime_fails() {
    let config = status_config(120);
    let mut session = signed_in(NOW - 10);
    let step = receive_refresh_at(&mut session, &config, Ok(refreshed_grant(Some(u64::MAX), None)), NOW);
    expect_status_rejected(
        step,
        ErrorKind::MissingExpiry,
        "(sessionstatus) expiry failed: OutOfRangeError(())",
    );
    assert!(session.is_empty());
}

#[test]
fn receive_refresh_reads_the_clock() {
    let config = status_config(120);
    let mut session = signed_in(0);
    let end = receive_refresh(&mut session, &config, Ok(refreshed_grant(Some(1800), None)));
    assert_eq!(end, status(true));
    assert!(session.token_expiry.expect("stored") > 1_577_836_800 + 1800);
}

#[test]
fn every_refreshed_lifetime_of_a_duration_has_an_expiry_on_the_clock() {
    let config = status_config(120);
    for lifetime in [1, 1800, MAX_LIFETIME_SECS] {
        let mut session = signed_in(0);
        let end = receive_refresh(&mut session, &config, Ok(refreshed_grant(Some(lifetime), None)));
        assert!(matches!(end, Step::Reply(Reply::SessionStatus { .. })));
        assert_eq!(session.access_token, Some(String::from("AT2")));
        let expiry = session.token_expiry.expect("stored");
        assert!(expiry >= 1_577_836_800 + lifetime as i64);
        assert!(expiry <= CLOCK_LIMIT_SECS + lifetime as i64);
    }
}

#[test]
fn clock_limit_is_wider_than_the_times_a_date_holds() {
    // A day count of 32 bits, in days of 86 400 seconds, with room for the
    // days between the first day counted and the epoch.
    assert_eq!(CLOCK_LIMIT_SECS, 200_000_000_000_000);
    assert!(CLOCK_LIMIT_SECS > (i32::MAX as i64 + 1_000_000) * 86_400);
    assert!(CLOCK_LIMIT_SECS as i128 + (MAX_LIFETIME_SECS as i128) < i64::MAX as i128);
}
