//! Credential issuance and token lifecycle for an OAuth2 device-authorization
//! provider, with the rules of the application around it, written as
//! verified decision logic.
//!
//! The library performs no I/O. Every flow is a state machine: the host
//! performs the action a state asks for (an HTTP request, a store access, a
//! sleep) and reports the outcome, and the flow moves on.
//!
//! - [`record`], [`store`], [`provider`]: the credential record, what the
//!   token store reports, and the provider's requests and answers.
//! - [`session`], [`device`], [`logout`]: the flows that get a valid token,
//!   complete a device authorization and log out.
//! - [`command`], [`helix`]: what is handed to the host application and to
//!   the authenticated API proxy.
//! - [`event_log`], [`settings`], [`suggestions`], [`presets`],
//!   [`monitors`], [`log_control`]: the rules of the application's other
//!   parts.
//! - [`json`], [`clock`], [`paths`], [`text`]: what is taken from
//!   `serde_json`, `chrono` and the standard library.

pub mod clock;
pub mod command;
pub mod device;
pub mod error;
pub mod event_log;
pub mod helix;
pub mod http;
pub mod json;
pub mod log_control;
pub mod logout;
pub mod monitors;
pub mod paths;
pub mod presets;
pub mod provider;
pub mod record;
pub mod session;
pub mod settings;
pub mod store;
pub mod suggestions;
pub mod text;
