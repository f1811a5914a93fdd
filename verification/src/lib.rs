//! Sessions for Fedora web services: the settings of an anonymous session,
//! and the login by which a session is authenticated with an OpenID
//! provider, with the cache that keeps its cookies between runs.
//!
//! The crate decides; it touches neither the network nor the disk. A caller
//! builds the HTTP client that the settings describe, makes each request
//! that a login asks for and hands back what came of it, and reads and
//! writes the file of the cookie cache.
//!
//! URLs are read by the `url` crate, `Set-Cookie` headers by the `cookie`
//! crate, JSON by `serde_json` and points in time by `chrono`; which
//! requests a cookie goes along with is decided by `cookie_store`. What is
//! taken from them on trust is said where it is taken.

use vstd::prelude::*;

pub mod accumulator;
pub mod address;
pub mod anonymous;
pub mod cache_document;
pub mod cookie_record;
pub mod cookie_cache;
pub mod error;
pub mod json;
pub mod openid;
pub mod parameters;
pub mod settings;
pub mod text;
pub mod timestamp;

pub use accumulator::Accumulator;
pub use address::Address;
pub use anonymous::AnonymousSessionBuilder;
pub use cache_document::CacheFile;
pub use cookie_record::{CookieAttributes, SimpleCookie};
pub use cookie_cache::CookieCache;
pub use error::{CookieCacheError, OpenIDClientError};
pub use json::Json;
pub use openid::{
    session_from_cookie_cache, CredentialSubmission, HandshakeCompletion, Hop, Location, LoginContext,
    LoginStart, OpenIDSession, OpenIDSessionBuilder, OpenIDSessionKind, OpenIDSessionLogin,
    ProviderReply, RedirectWalk, SiteReply, WalkStep, FEDORA_OPENID_API, FEDORA_OPENID_STG_API,
};
pub use parameters::{OpenIDParameters, OpenIDResponse};
pub use settings::{duration_of_secs, ClientSettings};

verus! {

/// Default value of the User-Agent HTTP header.
pub const FEDORA_USER_AGENT: &'static str = "fedora-rs v2.1.2";

/// Value of the Accept HTTP header that every session sends.
pub const ACCEPT_JSON: &'static str = "application/json";

/// Default request timeout, in seconds.
pub const DEFAULT_TIMEOUT_SECS: u64 = 30;

} // verus!
