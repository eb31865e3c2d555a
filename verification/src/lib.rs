//! Authentication flow of an OpenID Connect relying party that keeps every
//! provider token server-side: begin-login, complete-login, session status
//! with silent refresh, and logout, all acting on one typed session record
//! and all failing closed through a single error policy.
//!
//! The functions here decide; they never talk to the network. A handler that
//! needs the identity provider returns a request for the caller to perform
//! and takes the provider's answer in its next step.

pub mod session;
pub mod error;
pub mod reply;
pub mod expiry;
pub mod provider;
pub mod login;
pub mod callback;
pub mod sessionstatus;
pub mod details;
pub mod logout;
pub mod store;
pub mod settings;
