//! Building anonymous sessions.

use std::time::Duration;
use vstd::prelude::*;

use crate::settings::{resolved_timeout, resolved_user_agent, ClientSettings};

verus! {

/// The optional arguments of an anonymous session.
#[derive(Debug)]
pub struct AnonymousSessionBuilder<'a> {
    /// Optional override of the default timeout duration.
    pub timeout: Option<Duration>,
    /// Optional override of the default User-Agent header.
    pub user_agent: Option<&'a str>,
}

impl<'a> AnonymousSessionBuilder<'a> {
    /// A builder without overrides.
    pub fn new() -> (b: Self)
        ensures
            b.timeout is None,
            b.user_agent is None,
    {
        AnonymousSessionBuilder { timeout: None, user_agent: None }
    }

    /// Override the default request timeout duration.
    #[must_use]
    pub fn timeout(self, timeout: Duration) -> (b: Self)
        ensures
            b.timeout == Some(timeout),
            b.user_agent == self.user_agent,
    {
        AnonymousSessionBuilder { timeout: Some(timeout), user_agent: self.user_agent }
    }

    /// Override the default User-Agent header.
    #[must_use]
    pub fn user_agent(self, user_agent: &'a str) -> (b: Self)
        ensures
            b.user_agent == Some(user_agent),
            b.timeout == self.timeout,
    {
        AnonymousSessionBuilder { timeout: self.timeout, user_agent: Some(user_agent) }
    }

    /// The settings of the client of an anonymous session: the default
    /// headers with the overrides applied, and no redirect following.
    pub fn build(self) -> (s: ClientSettings)
        ensures
            s.timeout == resolved_timeout(self.timeout),
            s.user_agent@ == resolved_user_agent(self.user_agent),
            s.accept@ == crate::ACCEPT_JSON@,
            !s.follow_redirects,
    {
        ClientSettings::resolve(self.timeout, self.user_agent, false)
    }
}

} // verus!
