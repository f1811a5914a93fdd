//! The ways in which a login and the cookie cache fail.

use vstd::prelude::*;
use vstd::std_specs::convert::FromSpecImpl;

verus! {

/// The error of an HTTP redirect without a `Location` header.
pub const MISSING_REDIRECT_TARGET: &'static str =
    "No redirect URL provided in HTTP redirect headers.";

/// The error of an HTTP redirect whose `Location` header is no text.
pub const UNDECODABLE_REDIRECT_TARGET: &'static str = "Failed to decode redirect URL.";

/// The error of a provider that answers with `success: false`.
pub const AUTHENTICATION_REJECTED: &'static str = "OpenID endpoint returned an error code.";

/// The error of a site that refuses the provider's assertion.
pub const HANDSHAKE_REJECTED: &'static str =
    "Failed to complete authentication with the original site.";

/// The error of form fields that cannot be sent.
pub const UNSUPPORTED_FORM_VALUE: &'static str = "unsupported value";

/// The error of a cookie cache that was written for another login URL.
pub const LOGIN_URL_MISMATCH: &'static str = "Login URLs don't match. Not reusing cached cookies.";

/// The error of a cookie cache with an expired cookie.
pub const COOKIES_EXPIRED: &'static str = "Cookies are expired.";

/// The error of cached cookies that cannot be sent in a header.
pub const COOKIE_HEADER_FAILED: &'static str = "Failed to construct cookie headers.";

/// The failure modes of setting up a session authenticated via OpenID.
#[derive(Debug)]
#[allow(inconsistent_fields)]
pub enum OpenIDClientError {
    /// A request could not be made or got no response.
    RequestError {
        /// What the transport said.
        error: String,
    },
    /// A redirect target or a return URL was no valid URL.
    UrlParsingError {
        /// The error of the `url` crate.
        error: url::ParseError,
    },
    /// An HTTP redirect had no usable `Location` header.
    RedirectionError {
        /// What was wrong with the header.
        error: String,
    },
    /// The provider or the site rejected the attempt.
    AuthenticationError {
        /// Why the attempt failed.
        error: String,
    },
    /// A JSON text was not in the expected shape.
    DeserializationError {
        /// The error of the `serde_json` crate.
        error: serde_json::Error,
    },
    /// The provider's answer was no login envelope: most likely a wrong
    /// username or password.
    LoginError,
    /// The cached cookies cannot be used.
    CookieCacheError {
        /// Why the cache was not used.
        message: String,
    },
}

/// The failure modes of loading and storing the cookie cache.
#[derive(Debug)]
pub enum CookieCacheError {
    /// There is no cache yet.
    DoesNotExist,
    /// The cache could not be read or written.
    FileSystemError,
    /// The cache is no JSON document of the expected shape.
    SerializationError {
        /// The error of the `serde_json` crate, where it gave one.
        error: Option<serde_json::Error>,
    },
}

impl From<url::ParseError> for OpenIDClientError {
    fn from(error: url::ParseError) -> (r: Self) {
        OpenIDClientError::UrlParsingError { error }
    }
}

impl FromSpecImpl<url::ParseError> for OpenIDClientError {
    open spec fn obeys_from_spec() -> bool {
        true
    }

    open spec fn from_spec(error: url::ParseError) -> Self {
        OpenIDClientError::UrlParsingError { error }
    }
}

impl From<serde_json::Error> for OpenIDClientError {
    fn from(error: serde_json::Error) -> (r: Self) {
        OpenIDClientError::DeserializationError { error }
    }
}

impl FromSpecImpl<serde_json::Error> for OpenIDClientError {
    open spec fn obeys_from_spec() -> bool {
        true
    }

    open spec fn from_spec(error: serde_json::Error) -> Self {
        OpenIDClientError::DeserializationError { error }
    }
}

impl From<serde_json::Error> for CookieCacheError {
    fn from(error: serde_json::Error) -> (r: Self) {
        CookieCacheError::SerializationError { error: Some(error) }
    }
}

impl FromSpecImpl<serde_json::Error> for CookieCacheError {
    open spec fn obeys_from_spec() -> bool {
        true
    }

    open spec fn from_spec(error: serde_json::Error) -> Self {
        CookieCacheError::SerializationError { error: Some(error) }
    }
}

impl OpenIDClientError {
    /// Whether this is a `RedirectionError` with the given text.
    pub open spec fn is_redirection(self, text: Seq<char>) -> bool {
        self matches OpenIDClientError::RedirectionError { error } && error@ == text
    }

    /// Whether this is an `AuthenticationError` with the given text.
    pub open spec fn is_authentication(self, text: Seq<char>) -> bool {
        self matches OpenIDClientError::AuthenticationError { error } && error@ == text
    }

    /// Whether this is a `RequestError` with the given text.
    pub open spec fn is_request(self, text: Seq<char>) -> bool {
        self matches OpenIDClientError::RequestError { error } && error@ == text
    }

    /// Whether this is a `CookieCacheError` with the given text.
    pub open spec fn is_cookie_cache(self, text: Seq<char>) -> bool {
        self matches OpenIDClientError::CookieCacheError { message } && message@ == text
    }
}

} // verus!
