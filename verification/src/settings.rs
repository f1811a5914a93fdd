//! What an HTTP client of a session is configured with.

use std::time::Duration;
use vstd::prelude::*;

verus! {

/// The duration that `Duration::from_secs` returns for a number of seconds.
pub uninterp spec fn duration_of_secs(secs: u64) -> Duration;

/// `Duration::from_secs` of std: the result depends on the number of seconds
/// alone, and `duration_of_secs` is its name.
pub assume_specification[ Duration::from_secs ](secs: u64) -> (d: Duration)
    ensures
        d == duration_of_secs(secs),
;

/// How redirects, timeout and default headers of an HTTP client are set up.
///
/// The crate builds no client itself: this is the description from which a
/// caller builds one.
#[derive(Debug, PartialEq, Eq)]
pub struct ClientSettings {
    /// Value of the default `User-Agent` header.
    pub user_agent: String,
    /// Value of the default `Accept` header.
    pub accept: String,
    /// Timeout of every single request.
    pub timeout: Duration,
    /// Whether the client follows HTTP redirects by itself.
    pub follow_redirects: bool,
}

/// The timeout to use: the override if there is one, else the default.
pub open spec fn resolved_timeout(timeout: Option<Duration>) -> Duration {
    match timeout {
        Some(t) => t,
        None => duration_of_secs(crate::DEFAULT_TIMEOUT_SECS),
    }
}

/// The user agent to use: the override if there is one, else the default.
pub open spec fn resolved_user_agent(user_agent: Option<&str>) -> Seq<char> {
    match user_agent {
        Some(s) => s@,
        None => crate::FEDORA_USER_AGENT@,
    }
}

impl ClientSettings {
    /// Settings with the default headers, the given overrides applied.
    pub fn resolve(timeout: Option<Duration>, user_agent: Option<&str>, follow_redirects: bool) -> (s:
        ClientSettings)
        ensures
            s.timeout == resolved_timeout(timeout),
            s.user_agent@ == resolved_user_agent(user_agent),
            s.accept@ == crate::ACCEPT_JSON@,
            s.follow_redirects == follow_redirects,
    {
        let timeout = match timeout {
            Some(t) => t,
            None => Duration::from_secs(crate::DEFAULT_TIMEOUT_SECS),
        };
        let user_agent = match user_agent {
            Some(s) => s.to_string(),
            None => crate::FEDORA_USER_AGENT.to_string(),
        };
        ClientSettings {
            user_agent,
            accept: crate::ACCEPT_JSON.to_string(),
            timeout,
            follow_redirects,
        }
    }
}

} // verus!
