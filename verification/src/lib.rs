//! # dropworks
//!
//! Verified core of the Dropworks native game SDK client — the
//! Steamworks-replacement surface served by a Drop server:
//!
//! - sign in: `POST /api/v1/dropworks/session`
//! - unlock an achievement: `POST /api/v1/dropworks/achievement`
//! - submit a score: `POST /api/v1/dropworks/leaderboard`
//! - set presence (C ABI): `POST /api/v1/dropworks/presence`
//!
//! The library holds the client's state, builds every request and decides
//! on every reply; the exchanges themselves (async transports, the blocking
//! HTTP client behind the C ABI) are carried out by its callers.

pub mod abi;
pub mod client;
pub mod json;
pub mod laws;
pub mod text;
pub mod transport;

pub use client::{
    sign_in_payload, server_accepted, DropworksClient, DropworksError, DropworksSession, API_BASE_PATH,
    DROPWORKS_API_VERSION,
};
pub use text::trim_trailing_slash;
pub use transport::{HttpRequest, HttpResponse, TransportError};
