use gobsg::settings::MainConfiguration;
use gobsg::settings::ReadConfiguration;

fn required_only() -> ReadConfiguration {
    ReadConfiguration {
        this_server_url: String::from("https://bff.example"),
        cookie_name: String::from("sid"),
        cookie_domain: String::from("example"),
        secret_cookie_hex_key: String::from("00"),
        requesting_client_url: String::from("https://app.example/"),
        issuer_url: String::from("https://idp.example/realm"),
        logout_url: String::from("https://idp.example/realm/logout"),
        client: String::from("bff"),
        client_secret: String::from("SECRET-REDACTED"),
        listen_address: None,
        listen_port: None,
        workers: None,
        redis_address: None,
        heartbeat_logging: None,
        heartbeat_interval_hours: None,
        machine_name: None,
        container_name: None,
        provider: None,
        keep_alive_time_secs: None,
        client_request_timeout_secs: None,
        client_disconnect_timeout_secs: None,
        max_connections: None,
        early_refresh_skew_secs: None,
        user_details_fail_when_not_authenticated: None,
        default_username: None,
        default_user_id: None,
    }
}

fn everything_set() -> ReadConfiguration {
    ReadConfiguration {
        listen_address: Some(String::from("127.0.0.1")),
        listen_port: Some(8443),
        workers: Some(3),
        redis_address: Some(String::from("redis://cache:6379")),
        heartbeat_logging: Some(true),
        heartbeat_interval_hours: Some(1),
        machine_name: Some(String::from("m1")),
        container_name: Some(String::from("c1")),
        provider: Some(String::from("keycloak")),
        keep_alive_time_secs: Some(10),
        client_request_timeout_secs: Some(11),
        client_disconnect_timeout_secs: Some(12),
        max_connections: Some(13),
        early_refresh_skew_secs: Some(-14),
        user_details_fail_when_not_authenticated: Some(false),
        default_username: Some(String::from("guest")),
        default_user_id: Some(String::from("guest-id")),
        ..required_only()
    }
}

#[test]
fn missing_values_get_their_defaults() {
    let config = MainConfiguration::resolve(required_only(), 8);
    assert_eq!(
        config,
        MainConfiguration {
            this_server_url: String::from("https://bff.example"),
            cookie_name: String::from("sid"),
            cookie_domain: String::from("example"),
            secret_cookie_hex_key: String::from("00"),
            requesting_client_url: String::from("https://app.example/"),
            issuer_url: String::from("https://idp.example/realm"),
            logout_url: String::from("https://idp.example/realm/logout"),
            client: String::from("bff"),
            client_secret: String::from("SECRET-REDACTED"),
            listen_address: String::from("0.0.0.0"),
            listen_port: 3090,
            workers: 8,
            redis_address: String::from("redis://127.0.0.1:6379"),
            heartbeat_logging: false,
            heartbeat_interval_hours: 12,
            machine_name: String::from("machine"),
            container_name: String::from("container"),
            provider: String::from("provider"),
            keep_alive_time_secs: 75,
            client_request_timeout_secs: 30,
            client_disconnect_timeout_secs: 5,
            max_connections: 25000,
            early_refresh_skew_secs: 120,
            user_details_fail_when_not_authenticated: true,
            default_username: String::from("0"),
            default_user_id: String::from("0"),
        }
    );
}

#[test]
fn configured_values_are_kept() {
    let config = MainConfiguration::resolve(everything_set(), 8);
    assert_eq!(config.listen_address, "127.0.0.1");
    assert_eq!(config.listen_port, 8443);
    assert_eq!(config.workers, 3);
    assert_eq!(config.redis_address, "redis://cache:6379");
    assert!(config.heartbeat_logging);
    assert_eq!(config.heartbeat_interval_hours, 1);
    assert_eq!(config.machine_name, "m1");
    assert_eq!(config.container_name, "c1");
    assert_eq!(config.provider, "keycloak");
    assert_eq!(config.keep_alive_time_secs, 10);
    assert_eq!(config.client_request_timeout_secs, 11);
    assert_eq!(config.client_disconnect_timeout_secs, 12);
    assert_eq!(config.max_connections, 13);
    assert_eq!(config.early_refresh_skew_secs, -14);
    assert!(!config.user_details_fail_when_not_authenticated);
    assert_eq!(config.default_username, "guest");
    assert_eq!(config.default_user_id, "guest-id");
    assert_eq!(config.client, "bff");
}

#[test]
fn workers_default_to_the_processors_and_never_to_zero() {
    assert_eq!(MainConfiguration::resolve(required_only(), 16).workers, 16);
    assert_eq!(MainConfiguration::resolve(required_only(), 1).workers, 1);
    assert_eq!(MainConfiguration::resolve(required_only(), 0).workers, 1);
    let mut zero = required_only();
    zero.workers = Some(0);
    assert_eq!(MainConfiguration::resolve(zero, 16).workers, 0);
}

#[test]
fn new_counts_the_processors_of_this_machine() {
    let config = MainConfiguration::new(required_only());
    assert!(config.workers >= 1);
    assert_eq!(config.listen_port, 3090);
    let mut fixed = required_only();
    fixed.workers = Some(5);
    assert_eq!(MainConfiguration::new(fixed).workers, 5);
    assert_eq!(
        MainConfiguration::new(required_only()),
        MainConfiguration::resolve(required_only(), config.workers)
    );
}

#[test]
fn callback_url_is_the_server_url_and_callback() {
    let config = MainConfiguration::resolve(required_only(), 1);
    assert_eq!(config.callback_url(), "https://bff.example/callback");
    let mut bare = required_only();
    bare.this_server_url = String::new();
    assert_eq!(MainConfiguration::resolve(bare, 1).callback_url(), "/callback");
}

fn config_with_key(key: &str) -> MainConfiguration {
    let mut read = required_only();
    read.secret_cookie_hex_key = String::from(key);
    MainConfiguration::resolve(read, 1)
}

#[test]
fn cookie_key_decodes_128_hex_digits() {
    let digits = "000102030405060708090a0b0c0d0e0f101112131415161718191A1B1C1D1E1F\
                  202122232425262728292a2b2c2d2e2f303132333435363738393a3b3c3d3eFf";
    let key = config_with_key(digits).cookie_key().expect("a key");
    for i in 0..63 {
        assert_eq!(key[i], i as u8);
    }
    assert_eq!(key[63], 255);
}

#[test]
fn cookie_key_of_the_wrong_length_is_refused() {
    assert_eq!(config_with_key("").cookie_key(), Err(String::from("InvalidStringLength")));
    assert_eq!(config_with_key("0").cookie_key(), Err(String::from("OddLength")));
    assert_eq!(
        config_with_key(&"ab".repeat(63)).cookie_key(),
        Err(String::from("InvalidStringLength"))
    );
    assert_eq!(
        config_with_key(&"ab".repeat(65)).cookie_key(),
        Err(String::from("InvalidStringLength"))
    );
    assert!(config_with_key(&"ab".repeat(64)).cookie_key().is_ok());
}

#[test]
fn cookie_key_with_a_letter_that_is_no_digit_is_refused() {
    let mut digits = "ab".repeat(64);
    digits.replace_range(10..11, "g");
    assert_eq!(
        config_with_key(&digits).cookie_key(),
        Err(String::from("InvalidHexCharacter { c: 'g', index: 10 }"))
    );
    // 64 two-byte characters: 128 bytes, none of them a digit.
    assert!(config_with_key(&"\u{e9}".repeat(64)).cookie_key().is_err());
}
