//! The configuration that every handler reads, and how the values that a
//! configuration file left out are filled in.

use crate::error::debug_render;
use hex::FromHex;
use vstd::prelude::*;
use vstd::utf8::encode_utf8;

verus! {

/// The configuration as it is read: nine required values, and the optional
/// ones as they were found.
#[derive(Debug, Clone, PartialEq, Eq)]
pub struct ReadConfiguration {
    pub this_server_url: String,
    pub cookie_name: String,
    pub cookie_domain: String,
    pub secret_cookie_hex_key: String,
    pub requesting_client_url: String,
    pub issuer_url: String,
    pub logout_url: String,
    pub client: String,
    pub client_secret: String,
    pub listen_address: Option<String>,
    pub listen_port: Option<u16>,
    pub workers: Option<usize>,
    pub redis_address: Option<String>,
    pub heartbeat_logging: Option<bool>,
    pub heartbeat_interval_hours: Option<u16>,
    pub machine_name: Option<String>,
    pub container_name: Option<String>,
    pub provider: Option<String>,
    pub keep_alive_time_secs: Option<u64>,
    pub client_request_timeout_secs: Option<u64>,
    pub client_disconnect_timeout_secs: Option<u64>,
    pub max_connections: Option<usize>,
    pub early_refresh_skew_secs: Option<i64>,
    pub user_details_fail_when_not_authenticated: Option<bool>,
    pub default_username: Option<String>,
    pub default_user_id: Option<String>,
}

/// The configuration in force: every value present. Built once and only
/// read afterwards.
#[derive(Debug, Clone, PartialEq, Eq)]
pub struct MainConfiguration {
    pub this_server_url: String,
    pub cookie_name: String,
    pub cookie_domain: String,
    pub secret_cookie_hex_key: String,
    /// Where the browser is sent after a login, and after every failure.
    pub requesting_client_url: String,
    pub issuer_url: String,
    /// The provider's end-session endpoint.
    pub logout_url: String,
    pub client: String,
    pub client_secret: String,
    pub listen_address: String,
    pub listen_port: u16,
    pub workers: usize,
    pub redis_address: String,
    pub heartbeat_logging: bool,
    pub heartbeat_interval_hours: u16,
    pub machine_name: String,
    pub container_name: String,
    pub provider: String,
    pub keep_alive_time_secs: u64,
    pub client_request_timeout_secs: u64,
    pub client_disconnect_timeout_secs: u64,
    pub max_connections: usize,
    /// Seconds before its expiry from which an access token counts as
    /// expired.
    pub early_refresh_skew_secs: i64,
    /// Whether `/details` fails for a session without identity, rather than
    /// answering with the defaults below.
    pub user_details_fail_when_not_authenticated: bool,
    pub default_username: String,
    pub default_user_id: String,
}

/// The characters of an optional text, or `default` where it is missing.
pub open spec fn text_or(field: Option<String>, default: Seq<char>) -> Seq<char> {
    match field {
        Some(s) => s@,
        None => default,
    }
}

/// An optional value, or `default` where it is missing.
pub open spec fn value_or<T>(field: Option<T>, default: T) -> T {
    match field {
        Some(v) => v,
        None => default,
    }
}

/// The number of workers where none is configured: one per processor, and
/// never fewer than one.
pub open spec fn default_workers(cpus: usize) -> usize {
    if cpus >= 1 {
        cpus
    } else {
        1
    }
}

/// `config` is `read` with each missing value replaced by its default, on a
/// machine with `cpus` processors.
pub open spec fn resolves_to(
    read: ReadConfiguration,
    cpus: usize,
    config: MainConfiguration,
) -> bool {
    &&& config.this_server_url@ == read.this_server_url@
    &&& config.cookie_name@ == read.cookie_name@
    &&& config.cookie_domain@ == read.cookie_domain@
    &&& config.secret_cookie_hex_key@ == read.secret_cookie_hex_key@
    &&& config.requesting_client_url@ == read.requesting_client_url@
    &&& config.issuer_url@ == read.issuer_url@
    &&& config.logout_url@ == read.logout_url@
    &&& config.client@ == read.client@
    &&& config.client_secret@ == read.client_secret@
    &&& config.listen_address@ == text_or(read.listen_address, "0.0.0.0"@)
    &&& config.listen_port == value_or(read.listen_port, 3090)
    &&& config.workers == value_or(read.workers, default_workers(cpus))
    &&& config.redis_address@ == text_or(read.redis_address, "redis://127.0.0.1:6379"@)
    &&& config.heartbeat_logging == value_or(read.heartbeat_logging, false)
    &&& config.heartbeat_interval_hours == value_or(read.heartbeat_interval_hours, 12)
    &&& config.machine_name@ == text_or(read.machine_name, "machine"@)
    &&& config.container_name@ == text_or(read.container_name, "container"@)
    &&& config.provider@ == text_or(read.provider, "provider"@)
    &&& config.keep_alive_time_secs == value_or(read.keep_alive_time_secs, 75)
    &&& config.client_request_timeout_secs == value_or(read.client_request_timeout_secs, 30)
    &&& config.client_disconnect_timeout_secs == value_or(
        read.client_disconnect_timeout_secs,
        5,
    )
    &&& config.max_connections == value_or(read.max_connections, 25000)
    &&& config.early_refresh_skew_secs == value_or(read.early_refresh_skew_secs, 120)
    &&& config.user_details_fail_when_not_authenticated == value_or(
        read.user_details_fail_when_not_authenticated,
        true,
    )
    &&& config.default_username@ == text_or(read.default_username, "0"@)
    &&& config.default_user_id@ == text_or(read.default_user_id, "0"@)
}

/// `num_cpus::get`: the number of processors available to this process,
/// which its documentation promises to be at least 1.
#[verifier::external_body]
fn available_cpus() -> (cpus: usize)
    ensures
        cpus >= 1,
{
    num_cpus::get()
}

/// The error of the `hex` crate's decoders.
#[verifier::external_type_specification]
#[verifier::external_body]
pub struct ExFromHexError(hex::FromHexError);

/// The value of a hexadecimal digit in ASCII, upper or lower case.
pub open spec fn hex_value(digit: u8) -> Option<int> {
    if 0x30 <= digit <= 0x39 {
        Some(digit - 0x30)
    } else if 0x41 <= digit <= 0x46 {
        Some(digit - 0x41 + 10)
    } else if 0x61 <= digit <= 0x66 {
        Some(digit - 0x61 + 10)
    } else {
        None
    }
}

/// Every byte of `digits` is a hexadecimal digit.
pub open spec fn is_hex(digits: Seq<u8>) -> bool {
    forall|i: int| 0 <= i < digits.len() ==> hex_value(#[trigger] digits[i]) is Some
}

/// `bytes` is what `digits` spells: two digits to the byte, the high one
/// first.
pub open spec fn decodes_to(digits: Seq<u8>, bytes: Seq<u8>) -> bool {
    &&& digits.len() == 2 * bytes.len()
    &&& forall|i: int|
        0 <= i < bytes.len() ==> (#[trigger] bytes[i]) as int == 16 * hex_value(digits[2 * i])->0
            + hex_value(digits[2 * i + 1])->0
}

/// `digits` spells a cookie key: 128 hexadecimal digits.
pub open spec fn is_cookie_key(digits: Seq<u8>) -> bool {
    digits.len() == 128 && is_hex(digits)
}

/// `<[u8; 64]>::from_hex` of the `hex` crate: decodes exactly 128
/// hexadecimal digits, of either case, into 64 bytes, and refuses every
/// other text.
#[verifier::external_body]
fn key_from_hex(digits: &str) -> (key: Result<[u8; 64], hex::FromHexError>)
    ensures
        key is Ok <==> is_cookie_key(encode_utf8(digits@)),
        key matches Ok(bytes) ==> decodes_to(encode_utf8(digits@), bytes@),
{
    <[u8; 64]>::from_hex(digits)
}

/// An optional text, or `default` where it is missing.
fn or_text(field: Option<String>, default: &str) -> (value: String)
    ensures
        value@ == text_or(field, default@),
{
    match field {
        Some(s) => s,
        None => String::from_str(default),
    }
}

impl MainConfiguration {
    /// Fills in the defaults, for a machine with `cpus` processors.
    pub fn resolve(config: ReadConfiguration, cpus: usize) -> (resolved: MainConfiguration)
        ensures
            resolves_to(config, cpus, resolved),
    {
        let workers: usize = match config.workers {
            Some(workers) => workers,
            None => if cpus >= 1 {
                cpus
            } else {
                1
            },
        };
        MainConfiguration {
            this_server_url: config.this_server_url,
            cookie_name: config.cookie_name,
            cookie_domain: config.cookie_domain,
            secret_cookie_hex_key: config.secret_cookie_hex_key,
            requesting_client_url: config.requesting_client_url,
            issuer_url: config.issuer_url,
            logout_url: config.logout_url,
            client: config.client,
            client_secret: config.client_secret,
            listen_address: or_text(config.listen_address, "0.0.0.0"),
            listen_port: match config.listen_port {
                Some(port) => port,
                None => 3090,
            },
            workers,
            redis_address: or_text(config.redis_address, "redis://127.0.0.1:6379"),
            heartbeat_logging: match config.heartbeat_logging {
                Some(heart) => heart,
                None => false,
            },
            heartbeat_interval_hours: match config.heartbeat_interval_hours {
                Some(interval) => interval,
                None => 12,
            },
            machine_name: or_text(config.machine_name, "machine"),
            container_name: or_text(config.container_name, "container"),
            provider: or_text(config.provider, "provider"),
            keep_alive_time_secs: match config.keep_alive_time_secs {
                Some(alive) => alive,
                None => 75,
            },
            client_request_timeout_secs: match config.client_request_timeout_secs {
                Some(timeout) => timeout,
                None => 30,
            },
            client_disconnect_timeout_secs: match config.client_disconnect_timeout_secs {
                Some(timeout) => timeout,
                None => 5,
            },
            max_connections: match config.max_connections {
                Some(connections) => connections,
                None => 25000,
            },
            early_refresh_skew_secs: match config.early_refresh_skew_secs {
                Some(skew) => skew,
                None => 120,
            },
            user_details_fail_when_not_authenticated: match config
                .user_details_fail_when_not_authenticated {
                Some(fail) => fail,
                None => true,
            },
            default_username: or_text(config.default_username, "0"),
            default_user_id: or_text(config.default_user_id, "0"),
        }
    }

    /// The address that the provider sends the browser back to after a
    /// login: this server's own address, and `/callback`.
    pub fn callback_url(&self) -> (url: String)
        ensures
            url@ == self.this_server_url@ + "/callback"@,
    {
        self.this_server_url.clone().concat("/callback")
    }

    /// The key that signs the session cookie: the 64 bytes that the
    /// configured 128 hexadecimal digits spell. Any other text is refused,
    /// with the reason as text.
    pub fn cookie_key(&self) -> (key: Result<[u8; 64], String>)
        ensures
            key is Ok <==> is_cookie_key(encode_utf8(self.secret_cookie_hex_key@)),
            key matches Ok(bytes) ==> decodes_to(encode_utf8(self.secret_cookie_hex_key@), bytes@),
    {
        match key_from_hex(self.secret_cookie_hex_key.as_str()) {
            Ok(bytes) => Ok(bytes),
            Err(error) => Err(debug_render(&error)),
        }
    }

    /// Fills in the defaults on this machine: where no number of workers is
    /// configured, one worker per available processor.
    pub fn new(config: ReadConfiguration) -> (resolved: MainConfiguration)
        ensures
            exists|cpus: usize| cpus >= 1 && resolves_to(config, cpus, resolved),
    {
        let cpus: usize = available_cpus();
        MainConfiguration::resolve(config, cpus)
    }
}

} // verus!
