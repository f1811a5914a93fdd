//! Sessions that are authenticated via OpenID.
//!
//! A login walks along the redirects that start at the login URL and
//! collects the query parameters of every URL on the way. Where the
//! redirects end it sends them, with the credentials, to the OpenID
//! provider, and sends what the provider answers back to the site.
//!
//! The steps here decide what to request next; a caller makes the request
//! and hands back what came of it. The cookies of every response go into a
//! cookie cache, and a fresh cache for the same login URL makes the login
//! unnecessary.

use std::time::Duration;
use vstd::prelude::*;

use crate::accumulator::{
    accumulate, distinct_names, lemma_accumulate_step, merge_pairs, pairs_view, Accumulator,
};
use crate::address::{url_text, Address};
use crate::cache_document::{cache_of_document, CacheFile};
use crate::cookie_record::CookieRecord;
use crate::cookie_cache::{cookie_header, expired_at, ingested_all, CookieCache};
use crate::error::{
    CookieCacheError, OpenIDClientError, AUTHENTICATION_REJECTED, COOKIES_EXPIRED, COOKIE_HEADER_FAILED,
    HANDSHAKE_REJECTED, LOGIN_URL_MISMATCH, MISSING_REDIRECT_TARGET, UNDECODABLE_REDIRECT_TARGET,
    UNSUPPORTED_FORM_VALUE,
};
use crate::json::{json_document, text_member, JsonModel};
use crate::parameters::{OpenIDParameters, OpenIDResponse};
use crate::settings::{resolved_timeout, resolved_user_agent, ClientSettings};
use crate::text::{is_header_text, is_header_value};

verus! {

/// The OpenID authentication endpoint for "production" instances of fedora
/// services.
pub const FEDORA_OPENID_API: &'static str = "https://id.fedoraproject.org/api/v1/";

/// The OpenID authentication endpoint for "staging" instances of fedora
/// services.
pub const FEDORA_OPENID_STG_API: &'static str = "https://id.stg.fedoraproject.org/api/v1/";

/// The authentication module that a login asks the provider for.
pub const AUTH_MODULE: &'static str = "fedoauth.auth.fas.Auth_FAS";

/// The authentication flow that a login asks the provider for.
pub const AUTH_FLOW: &'static str = "fedora";

/// The OpenID mode of a login, unless a redirect has named another.
pub const CHECKID_SETUP: &'static str = "checkid_setup";

/// The kinds of OpenID providers that can be interacted with.
#[derive(Debug)]
pub enum OpenIDSessionKind {
    /// The default Fedora OpenID provider.
    Default,
    /// The Fedora OpenID provider staging instance.
    Staging,
    /// A non-standard OpenID provider with a custom URL.
    Custom {
        /// URL of the OpenID provider.
        auth_url: Address,
    },
}

impl OpenIDSessionKind {
    /// The URL of the provider's authentication endpoint.
    pub open spec fn endpoint(self) -> Seq<char> {
        match self {
            OpenIDSessionKind::Default => FEDORA_OPENID_API@,
            OpenIDSessionKind::Staging => FEDORA_OPENID_STG_API@,
            OpenIDSessionKind::Custom { auth_url } => auth_url.text(),
        }
    }

    /// The URL of the provider's authentication endpoint.
    pub fn auth_url(&self) -> (url: String)
        ensures
            url@ == self.endpoint(),
    {
        match self {
            OpenIDSessionKind::Default => FEDORA_OPENID_API.to_string(),
            OpenIDSessionKind::Staging => FEDORA_OPENID_STG_API.to_string(),
            OpenIDSessionKind::Custom { auth_url } => auth_url.as_str().to_string(),
        }
    }
}

/// Whether a status code is that of a redirect.
pub open spec fn redirects(status: u16) -> bool {
    300 <= status < 400
}

/// Whether a status code is that of a success.
pub open spec fn succeeds(status: u16) -> bool {
    200 <= status < 300
}

/// Why the cookies of a cache cannot stand for a login at the time `now`:
/// they belong to another login URL, one of them has expired, or they
/// cannot be sent in a header. `None` for a cache that can.
pub open spec fn refusal(
    cache_url: Seq<char>,
    cookies: Seq<CookieRecord>,
    login_url: Seq<char>,
    now: i64,
) -> Option<Seq<char>> {
    if cache_url != login_url {
        Some(LOGIN_URL_MISMATCH@)
    } else if expired_at(cookies, now) {
        Some(COOKIES_EXPIRED@)
    } else if cookies.len() > 0 && !is_header_text(cookie_header(cookies)) {
        Some(COOKIE_HEADER_FAILED@)
    } else {
        None
    }
}

/// The settings of the client of an authenticated session: it follows
/// redirects. Its cookies are those of the session's cookie cache.
pub open spec fn session_settings(
    settings: ClientSettings,
    timeout: Duration,
    user_agent: Seq<char>,
) -> bool {
    &&& settings.timeout == timeout
    &&& settings.user_agent@ == user_agent
    &&& settings.accept@ == crate::ACCEPT_JSON@
    &&& settings.follow_redirects
}

/// The settings of the client of an authenticated session.
fn final_settings(timeout: Duration, user_agent: String) -> (settings: ClientSettings)
    ensures
        session_settings(settings, timeout, user_agent@),
{
    ClientSettings {
        user_agent,
        accept: crate::ACCEPT_JSON.to_string(),
        timeout,
        follow_redirects: true,
    }
}

/// The settings of a session that reuses the cookies of a cache in place of
/// a login, at the time `now`. The cache is refused with a
/// `CookieCacheError` if it belongs to another login URL, if one of its
/// cookies has expired, or if its cookies cannot be sent in a header.
pub fn session_from_cookie_cache(
    cookie_cache: &CookieCache,
    login_url: &str,
    timeout: Duration,
    user_agent: String,
    now: i64,
) -> (r: Result<ClientSettings, OpenIDClientError>)
    ensures
        match r {
            Ok(settings) => refusal(
                cookie_cache.login_url@,
                cookie_cache.records(),
                login_url@,
                now,
            ) is None && session_settings(settings, timeout, user_agent@),
            Err(e) => refusal(cookie_cache.login_url@, cookie_cache.records(), login_url@, now)
                matches Some(why) && e.is_cookie_cache(why),
        },
{
    if !cookie_cache.login_url.as_str().eq(login_url) {
        return Err(
            OpenIDClientError::CookieCacheError { message: LOGIN_URL_MISMATCH.to_string() },
        );
    }
    if cookie_cache.is_expired_at(now) {
        return Err(OpenIDClientError::CookieCacheError { message: COOKIES_EXPIRED.to_string() });
    }
    let valid = match cookie_cache.all_cookie_headers() {
        Some(header) => is_header_value(header.as_str()),
        None => true,
    };
    if !valid {
        return Err(
            OpenIDClientError::CookieCacheError { message: COOKIE_HEADER_FAILED.to_string() },
        );
    }
    Ok(final_settings(timeout, user_agent))
}

/// The arguments of a session that is authenticated via OpenID.
#[derive(Debug)]
pub struct OpenIDSessionBuilder<'a> {
    /// The URL at which the login starts.
    pub login_url: Address,
    /// The URL of the provider's authentication endpoint.
    pub auth_url: String,
    /// The username to log in with, if the builder was given one.
    pub username: Option<&'a str>,
    /// The password to log in with, if the builder was given one.
    pub password: Option<&'a str>,
    /// Optional override of the default timeout duration.
    pub timeout: Option<Duration>,
    /// Optional override of the default User-Agent header.
    pub user_agent: Option<&'a str>,
    /// Whether cookies are kept on disk between runs.
    pub cache_cookies: bool,
}

/// A login that is ready but for username and password.
#[derive(Debug)]
pub struct OpenIDSessionLogin {
    /// The URL at which the login starts.
    pub login_url: Address,
    /// The URL of the provider's authentication endpoint.
    pub auth_url: String,
    /// Timeout of every single request.
    pub timeout: Duration,
    /// Value of the `User-Agent` header.
    pub user_agent: String,
    /// Whether the cookies are to be written to disk after the login.
    pub cache_cookies: bool,
    /// The cached cookies, where they make the login unnecessary.
    pub jar: Option<CookieCache>,
}

/// Whether what was found on disk makes a login at the time `now`
/// unnecessary: it holds a cache for the login URL that can stand for a
/// login.
pub open spec fn reusable(file: CacheFile, login_url: Seq<char>, now: i64) -> bool {
    &&& file matches CacheFile::Contents(text)
    &&& json_document(text@) matches Some(doc)
    &&& cache_of_document(doc) matches Some((cache_url, cookies))
    &&& refusal(cache_url, cookies, login_url, now) is None
}

/// Whether a cookie cache was found that can stand for a login at the time
/// `now`.
pub open spec fn stands_for_login(
    cached: Result<CookieCache, CookieCacheError>,
    login_url: Seq<char>,
    now: i64,
) -> bool {
    match cached {
        Ok(cache) => refusal(cache.login_url@, cache.records(), login_url, now) is None,
        Err(_) => false,
    }
}

/// A cache belongs to its login URL: one that was written for a login URL
/// is refused for any other, however fresh it is.
pub proof fn lemma_cache_is_keyed_by_login_url(
    cache_url: Seq<char>,
    cookies: Seq<CookieRecord>,
    login_url: Seq<char>,
    now: i64,
)
    requires
        cache_url != login_url,
    ensures
        refusal(cache_url, cookies, login_url, now) == Some(LOGIN_URL_MISMATCH@),
{
}

/// What is found on disk is reused only for the login URL under which it
/// was written.
pub proof fn lemma_reuse_needs_same_login_url(file: CacheFile, login_url: Seq<char>, now: i64)
    requires
        reusable(file, login_url, now),
    ensures
        file matches CacheFile::Contents(text) && cache_of_document(
            json_document(text@).unwrap(),
        ).unwrap().0 == login_url,
{
}

/// The cookies that a text holds, where it holds a cache.
pub open spec fn cached_cookies(text: Seq<char>) -> Seq<CookieRecord> {
    cache_of_document(json_document(text).unwrap()).unwrap().1
}

impl<'a> OpenIDSessionBuilder<'a> {
    /// A builder for a login at the given URL with a provider of the given
    /// kind. The cookies of the login are kept on disk.
    pub fn new(login_url: Address, kind: OpenIDSessionKind) -> (b: Self)
        ensures
            b.login_url == login_url,
            b.auth_url@ == kind.endpoint(),
            b.username is None,
            b.password is None,
            b.timeout is None,
            b.user_agent is None,
            b.cache_cookies,
    {
        OpenIDSessionBuilder {
            auth_url: kind.auth_url(),
            login_url,
            username: None,
            password: None,
            timeout: None,
            user_agent: None,
            cache_cookies: true,
        }
    }

    /// A builder for the "production" instances of the fedora services.
    pub fn default(login_url: Address, username: &'a str, password: &'a str) -> (b: Self)
        ensures
            b.login_url == login_url,
            b.auth_url@ == FEDORA_OPENID_API@,
            b.username == Some(username),
            b.password == Some(password),
            b.timeout is None,
            b.user_agent is None,
            !b.cache_cookies,
    {
        OpenIDSessionBuilder {
            auth_url: FEDORA_OPENID_API.to_string(),
            login_url,
            username: Some(username),
            password: Some(password),
            timeout: None,
            user_agent: None,
            cache_cookies: false,
        }
    }

    /// A builder for the "staging" instances of the fedora services.
    pub fn staging(login_url: Address, username: &'a str, password: &'a str) -> (b: Self)
        ensures
            b.login_url == login_url,
            b.auth_url@ == FEDORA_OPENID_STG_API@,
            b.username == Some(username),
            b.password == Some(password),
            b.timeout is None,
            b.user_agent is None,
            !b.cache_cookies,
    {
        OpenIDSessionBuilder {
            auth_url: FEDORA_OPENID_STG_API.to_string(),
            login_url,
            username: Some(username),
            password: Some(password),
            timeout: None,
            user_agent: None,
            cache_cookies: false,
        }
    }

    /// A builder with an authentication endpoint of the caller's choice.
    pub fn custom(
        auth_url: Address,
        login_url: Address,
        username: &'a str,
        password: &'a str,
    ) -> (b: Self)
        ensures
            b.login_url == login_url,
            b.auth_url@ == auth_url.text(),
            b.username == Some(username),
            b.password == Some(password),
            b.timeout is None,
            b.user_agent is None,
            !b.cache_cookies,
    {
        OpenIDSessionBuilder {
            auth_url: auth_url.as_str().to_string(),
            login_url,
            username: Some(username),
            password: Some(password),
            timeout: None,
            user_agent: None,
            cache_cookies: false,
        }
    }

    /// Override the default request timeout duration.
    #[must_use]
    pub fn timeout(self, timeout: Duration) -> (b: Self)
        ensures
            b == (OpenIDSessionBuilder { timeout: Some(timeout), ..self }),
    {
        OpenIDSessionBuilder { timeout: Some(timeout), ..self }
    }

    /// Override the default User-Agent header.
    #[must_use]
    pub fn user_agent(self, user_agent: &'a str) -> (b: Self)
        ensures
            b == (OpenIDSessionBuilder { user_agent: Some(user_agent), ..self }),
    {
        OpenIDSessionBuilder { user_agent: Some(user_agent), ..self }
    }

    /// Whether the cookies of the login are kept on disk between runs.
    #[must_use]
    pub fn cache_cookies(self, cache_cookies: bool) -> (b: Self)
        ensures
            b == (OpenIDSessionBuilder { cache_cookies, ..self }),
    {
        OpenIDSessionBuilder { cache_cookies, ..self }
    }

    /// The login that the builder describes, given the cookie cache that
    /// was kept on disk, or why there is none. The cached cookies are taken
    /// in place of a login exactly if cookies are cached at all and the
    /// cache belongs to the same login URL and can stand for a login at
    /// the time `now`; whatever else was found is passed over.
    pub fn build_with(self, cached: Result<CookieCache, CookieCacheError>, now: i64) -> (login:
        OpenIDSessionLogin)
        ensures
            login.login_url == self.login_url,
            login.auth_url == self.auth_url,
            login.timeout == resolved_timeout(self.timeout),
            login.user_agent@ == resolved_user_agent(self.user_agent),
            login.cache_cookies == self.cache_cookies,
            login.jar is Some <==> self.cache_cookies && stands_for_login(
                cached,
                self.login_url.text(),
                now,
            ),
            login.jar matches Some(cache) ==> cached == Ok::<CookieCache, CookieCacheError>(cache),
    {
        let settings = ClientSettings::resolve(self.timeout, self.user_agent, false);
        let jar = if self.cache_cookies {
            match cached {
                Ok(cache) => {
                    let fresh = session_from_cookie_cache(
                        &cache,
                        self.login_url.as_str(),
                        settings.timeout,
                        String::new(),
                        now,
                    );
                    if fresh.is_ok() {
                        Some(cache)
                    } else {
                        None
                    }
                },
                Err(_) => None,
            }
        } else {
            None
        };
        OpenIDSessionLogin {
            login_url: self.login_url,
            auth_url: self.auth_url,
            timeout: settings.timeout,
            user_agent: settings.user_agent,
            cache_cookies: self.cache_cookies,
            jar,
        }
    }

    /// The login that the builder describes, given what was found where
    /// the cookies are kept on disk. The cached cookies are taken in place
    /// of a login exactly if cookies are cached at all and the file holds
    /// a cache for the same login URL that can stand for a login at the
    /// time `now`; whatever else was found is passed over.
    pub fn build(self, file: CacheFile, now: i64) -> (login: OpenIDSessionLogin)
        ensures
            login.login_url == self.login_url,
            login.auth_url == self.auth_url,
            login.timeout == resolved_timeout(self.timeout),
            login.user_agent@ == resolved_user_agent(self.user_agent),
            login.cache_cookies == self.cache_cookies,
            login.jar is Some <==> self.cache_cookies && reusable(file, self.login_url.text(), now),
            login.jar matches Some(cache) ==> file matches CacheFile::Contents(text)
                && cache.login_url@ == self.login_url.text() && cache.records() == cached_cookies(
                text@,
            ),
    {
        let cached = CookieCache::from_cached(file);
        self.build_with(cached, now)
    }
}

/// What stays the same through all steps of a login.
#[derive(Debug)]
pub struct LoginContext {
    /// The URL of the provider's authentication endpoint.
    pub auth_url: String,
    /// The username to log in with.
    pub username: String,
    /// The password to log in with.
    pub password: String,
    /// Whether the cookies are to be written to disk after the login.
    pub cache_cookies: bool,
    /// Timeout of every single request.
    pub timeout: Duration,
    /// Value of the `User-Agent` header.
    pub user_agent: String,
}

/// The `Location` header of a response.
#[derive(Debug, PartialEq, Eq)]
pub enum Location {
    /// The response has no such header.
    Missing,
    /// The header's value is no text.
    Undecodable,
    /// The header's value.
    Text(String),
}

/// What came back for a `GET` on the way along the redirects.
#[derive(Debug)]
pub struct Hop {
    /// The status code of the response.
    pub status: u16,
    /// The `Location` header of the response.
    pub location: Location,
    /// The values of the `Set-Cookie` headers of the response.
    pub set_cookies: Vec<String>,
}

/// What the provider answered to the credentials.
#[derive(Debug)]
pub struct ProviderReply {
    /// The body of the response as text, or why it could not be read.
    pub body: Result<String, String>,
    /// The values of the `Set-Cookie` headers of the response.
    pub set_cookies: Vec<String>,
}

/// What the site answered to the provider's assertion.
#[derive(Debug)]
pub struct SiteReply {
    /// The status code of the response.
    pub status: u16,
    /// The values of the `Set-Cookie` headers of the response.
    pub set_cookies: Vec<String>,
}

/// A login on its way along the redirects: the next request is a `GET` of
/// `current`, without following redirects.
#[derive(Debug)]
pub struct RedirectWalk {
    pub context: LoginContext,
    /// The URL to request next.
    pub current: Address,
    /// The query parameters of the URLs that were requested so far.
    pub state: Accumulator,
    /// The cookies of the responses so far.
    pub cache: CookieCache,
}

/// A login that has reached the end of the redirects: the next request is
/// a `POST` of `form` to the provider's authentication endpoint.
#[derive(Debug)]
pub struct CredentialSubmission {
    pub context: LoginContext,
    /// The fields of the form to send, every name once.
    pub form: Vec<(String, String)>,
    /// The cookies of the responses so far.
    pub cache: CookieCache,
}

/// A login that the provider has accepted: the next request is a `POST` of
/// `form` to `return_url`.
#[derive(Debug)]
pub struct HandshakeCompletion {
    pub context: LoginContext,
    /// The URL of the site to return to.
    pub return_url: Address,
    /// The fields of the form to send.
    pub form: Vec<(String, String)>,
    /// What the provider answered.
    pub params: OpenIDParameters,
    /// The cookies of the responses so far.
    pub cache: CookieCache,
}

/// An authenticated session: the settings of its client, its cookies, and
/// what the provider answered if there was a login.
#[derive(Debug)]
pub struct OpenIDSession {
    /// The settings of the session's client.
    pub settings: ClientSettings,
    /// The cookies of the session.
    pub cache: CookieCache,
    /// The OpenID parameters of the login; `None` for reused cookies.
    pub params: Option<OpenIDParameters>,
    /// Whether the cookies are to be written to disk now.
    pub save_cache: bool,
}

/// How a login starts.
#[derive(Debug)]
pub enum LoginStart {
    /// Cached cookies stand for the login: nothing is requested.
    Reused(OpenIDSession),
    /// The login starts at the login URL.
    Walk(RedirectWalk),
}

/// How a login goes on after a `GET`.
#[derive(Debug)]
pub enum WalkStep {
    /// The response was a redirect: its target is next.
    Next(RedirectWalk),
    /// The response was no redirect: the credentials are next.
    Arrived(CredentialSubmission),
    /// The login has failed.
    Failed(OpenIDClientError),
}

/// The parameters of the credentials form: what the redirects gave, with
/// username, password, authentication module and flow written over it, and
/// an OpenID mode unless the redirects gave one.
pub open spec fn collected(
    state: Map<Seq<char>, Seq<char>>,
    username: Seq<char>,
    password: Seq<char>,
) -> Map<Seq<char>, Seq<char>> {
    let named = state.insert("username"@, username).insert("password"@, password).insert(
        "auth_module"@,
        AUTH_MODULE@,
    ).insert("auth_flow"@, AUTH_FLOW@);
    if named.contains_key("openid.mode"@) {
        named
    } else {
        named.insert("openid.mode"@, CHECKID_SETUP@)
    }
}

impl OpenIDSession {
    /// The OpenID parameters that the provider returned, if there was a
    /// login.
    pub fn params(&self) -> (r: Option<&OpenIDParameters>)
        ensures
            match r {
                Some(p) => self.params == Some(*p),
                None => self.params is None,
            },
    {
        self.params.as_ref()
    }
}

impl OpenIDSessionLogin {
    /// The settings of the client that makes the requests of the login: it
    /// does not follow redirects.
    pub fn login_settings(&self) -> (settings: ClientSettings)
        ensures
            settings.timeout == self.timeout,
            settings.user_agent@ == self.user_agent@,
            settings.accept@ == crate::ACCEPT_JSON@,
            !settings.follow_redirects,
    {
        ClientSettings {
            user_agent: self.user_agent.clone(),
            accept: crate::ACCEPT_JSON.to_string(),
            timeout: self.timeout,
            follow_redirects: false,
        }
    }

    /// Starts the login. With cached cookies the session is there at once,
    /// without OpenID parameters and with nothing to save. Without them
    /// the walk starts at the login URL, with nothing collected and an
    /// empty cache for that URL.
    pub fn login(self, username: &str, password: &str) -> (start: LoginStart)
        ensures
            match self.jar {
                Some(cache) => start matches LoginStart::Reused(session) && session.cache == cache
                    && session.params is None && !session.save_cache && session_settings(
                    session.settings,
                    self.timeout,
                    self.user_agent@,
                ),
                None => start matches LoginStart::Walk(walk) && walk.current == self.login_url
                    && walk.state@ == Map::<Seq<char>, Seq<char>>::empty()
                    && walk.cache.login_url@ == self.login_url.text() && walk.cache.records().len()
                    == 0 && walk.context.auth_url == self.auth_url && walk.context.username@
                    == username@ && walk.context.password@ == password@
                    && walk.context.cache_cookies == self.cache_cookies && walk.context.timeout
                    == self.timeout && walk.context.user_agent == self.user_agent,
            },
    {
        match self.jar {
            Some(cache) => {
                let settings = final_settings(self.timeout, self.user_agent);
                LoginStart::Reused(
                    OpenIDSession { settings, cache, params: None, save_cache: false },
                )
            },
            None => {
                let cache = CookieCache::new(self.login_url.as_str().to_string());
                let context = LoginContext {
                    auth_url: self.auth_url,
                    username: username.to_string(),
                    password: password.to_string(),
                    cache_cookies: self.cache_cookies,
                    timeout: self.timeout,
                    user_agent: self.user_agent,
                };
                LoginStart::Walk(
                    RedirectWalk {
                        context,
                        current: self.login_url,
                        state: Accumulator::new(),
                        cache,
                    },
                )
            },
        }
    }
}

impl RedirectWalk {
    /// Whether `step` is how the walk goes on after what came back for the
    /// `GET` of `current` at the time `now`.
    ///
    /// A request that failed fails the login with a `RequestError`. Else
    /// the cookies of the response are stored and the query parameters of
    /// `current` are written into what was collected. A redirect leads to
    /// its target: without a `Location` header, with one that is no text
    /// or none that is a URL the login fails. Anything else ends the walk:
    /// the form for the credentials is what was collected with the
    /// credentials written over it.
    pub open spec fn advanced(self, hop: Result<Hop, String>, now: i64, step: WalkStep) -> bool {
        match hop {
            Err(message) => step matches WalkStep::Failed(e) && e.is_request(message@),
            Ok(hop) => {
                let state = merge_pairs(self.state@, self.current.query());
                let cookies = ingested_all(
                    self.cache.records(),
                    hop.set_cookies@,
                    self.current.text(),
                    now,
                );
                if redirects(hop.status) {
                    match hop.location {
                        Location::Missing => step matches WalkStep::Failed(e) && e.is_redirection(
                            MISSING_REDIRECT_TARGET@,
                        ),
                        Location::Undecodable => step matches WalkStep::Failed(e)
                            && e.is_redirection(UNDECODABLE_REDIRECT_TARGET@),
                        Location::Text(target) => match url_text(target@) {
                            None => step matches WalkStep::Failed(e) && e is UrlParsingError,
                            Some(_) => {
                                &&& step matches WalkStep::Next(next)
                                &&& next.context == self.context
                                &&& next.current.parsed_from(target@)
                                &&& next.state@ == state
                                &&& next.cache.login_url == self.cache.login_url
                                &&& next.cache.records() == cookies
                            },
                        },
                    }
                } else {
                    &&& step matches WalkStep::Arrived(submission)
                    &&& submission.context == self.context
                    &&& distinct_names(pairs_view(submission.form@))
                    &&& merge_pairs(Map::empty(), pairs_view(submission.form@)) == collected(
                        state,
                        self.context.username@,
                        self.context.password@,
                    )
                    &&& submission.cache.login_url == self.cache.login_url
                    &&& submission.cache.records() == cookies
                }
            },
        }
    }

    /// The step of a walk to the target of a redirect, given what the
    /// target was read as: the walk goes on at a target that is a URL, with
    /// all else as it is, and fails with a `UrlParsingError` at one that is
    /// none.
    pub fn follow(self, target: Result<Address, url::ParseError>) -> (step: WalkStep)
        ensures
            match target {
                Ok(address) => step matches WalkStep::Next(next) && next == (RedirectWalk {
                    current: address,
                    ..self
                }),
                Err(error) => step matches WalkStep::Failed(e) && e
                    == (OpenIDClientError::UrlParsingError { error }),
            },
    {
        match target {
            Ok(address) => WalkStep::Next(RedirectWalk { current: address, ..self }),
            Err(error) => WalkStep::Failed(OpenIDClientError::UrlParsingError { error }),
        }
    }

    /// The next step of the walk, given what came back for the `GET` of
    /// `current` at the time `now`.
    pub fn advance(self, hop: Result<Hop, String>, now: i64) -> (step: WalkStep)
        ensures
            self.advanced(hop, now, step),
    {
        let hop = match hop {
            Ok(hop) => hop,
            Err(message) => {
                return WalkStep::Failed(OpenIDClientError::RequestError { error: message });
            },
        };
        let mut cache = self.cache;
        let mut state = self.state;
        cache.ingest_cookies_at(&hop.set_cookies, self.current.as_str(), now);
        state.absorb(self.current.query_pairs());
        if hop.status >= 300 && hop.status < 400 {
            match hop.location {
                Location::Missing => WalkStep::Failed(
                    OpenIDClientError::RedirectionError {
                        error: MISSING_REDIRECT_TARGET.to_string(),
                    },
                ),
                Location::Undecodable => WalkStep::Failed(
                    OpenIDClientError::RedirectionError {
                        error: UNDECODABLE_REDIRECT_TARGET.to_string(),
                    },
                ),
                Location::Text(target) => {
                    let parsed = Address::parse(target.as_str());
                    let here = RedirectWalk {
                        context: self.context,
                        current: self.current,
                        state,
                        cache,
                    };
                    here.follow(parsed)
                },
            }
        } else {
            state.insert("username".to_string(), self.context.username.clone());
            state.insert("password".to_string(), self.context.password.clone());
            state.insert("auth_module".to_string(), AUTH_MODULE.to_string());
            state.insert("auth_flow".to_string(), AUTH_FLOW.to_string());
            state.insert_if_absent("openid.mode".to_string(), CHECKID_SETUP.to_string());
            let form = state.into_pairs();
            WalkStep::Arrived(CredentialSubmission { context: self.context, form, cache })
        }
    }
}

/// A walk that has accumulated the parameters of the hops behind it has,
/// after the next step, accumulated those of the hop it was at as well:
/// they are what the next walk holds, and what the credentials are written
/// over in the form.
pub proof fn lemma_walk_accumulates(
    walk: RedirectWalk,
    hops: Seq<Seq<(Seq<char>, Seq<char>)>>,
    hop: Hop,
    now: i64,
    step: WalkStep,
)
    requires
        walk.state@ == accumulate(hops),
        walk.advanced(Ok(hop), now, step),
    ensures
        step matches WalkStep::Next(next) ==> next.state@ == accumulate(
            hops.push(walk.current.query()),
        ),
        step matches WalkStep::Arrived(submission) ==> merge_pairs(
            Map::empty(),
            pairs_view(submission.form@),
        ) == collected(
            accumulate(hops.push(walk.current.query())),
            walk.context.username@,
            walk.context.password@,
        ),
{
    lemma_accumulate_step(hops, walk.current.query());
}

impl CredentialSubmission {
    /// Whether `r` is how the login goes on after what the provider
    /// answered at the time `now`.
    ///
    /// A request that failed fails the login with an
    /// `AuthenticationError`, a body that could not be read with a
    /// `RequestError`. A body that is no login envelope means wrong
    /// credentials, a `LoginError`; an envelope without success is an
    /// `AuthenticationError`. The `openid.return_to` of the answer has to
    /// be a URL, and every member of the answer has to fit into a form.
    pub open spec fn advanced(
        self,
        reply: Result<ProviderReply, String>,
        now: i64,
        r: Result<HandshakeCompletion, OpenIDClientError>,
    ) -> bool {
        match reply {
            Err(message) => r matches Err(e) && e.is_authentication(message@),
            Ok(reply) => match reply.body {
                Err(message) => r matches Err(e) && e.is_request(message@),
                Ok(body) => if !OpenIDResponse::text_readable(body@) {
                    r matches Err(OpenIDClientError::LoginError)
                } else {
                    let envelope = json_document(body@).unwrap();
                    let answer = envelope.get("response"@).unwrap();
                    let return_to = text_member(answer, "openid.return_to"@).unwrap();
                    if envelope.get("success"@) != Some(JsonModel::Bool(true)) {
                        r matches Err(e) && e.is_authentication(AUTHENTICATION_REJECTED@)
                    } else if url_text(return_to) is None {
                        r matches Err(e) && e is UrlParsingError
                    } else {
                        match r {
                            Ok(completion) => {
                                &&& completion.context == self.context
                                &&& completion.params.read_from(answer)
                                &&& completion.return_url.parsed_from(return_to)
                                &&& completion.params.form() == Some(pairs_view(completion.form@))
                                &&& completion.cache.login_url == self.cache.login_url
                                &&& completion.cache.records() == ingested_all(
                                    self.cache.records(),
                                    reply.set_cookies@,
                                    self.context.auth_url@,
                                    now,
                                )
                            },
                            Err(e) => {
                                &&& e.is_request(UNSUPPORTED_FORM_VALUE@)
                                &&& forall|params: OpenIDParameters| #[trigger]
                                    params.read_from(answer) ==> params.form() is None
                            },
                        }
                    }
                },
            },
        }
    }

    /// The next step of the login, given what the provider answered to the
    /// `POST` of the form at the time `now`.
    pub fn advance(self, reply: Result<ProviderReply, String>, now: i64) -> (r: Result<
        HandshakeCompletion,
        OpenIDClientError,
    >)
        ensures
            self.advanced(reply, now, r),
    {
        let reply = match reply {
            Ok(reply) => reply,
            Err(message) => {
                return Err(OpenIDClientError::AuthenticationError { error: message });
            },
        };
        let mut cache = self.cache;
        cache.ingest_cookies_at(&reply.set_cookies, self.context.auth_url.as_str(), now);
        let body = match reply.body {
            Ok(body) => body,
            Err(message) => {
                return Err(OpenIDClientError::RequestError { error: message });
            },
        };
        let envelope = OpenIDResponse::from_json_text(body.as_str());
        let ghost seen = envelope;
        let ghost answer = json_document(body@).unwrap().get("response"@).unwrap();
        let here = CredentialSubmission { context: self.context, form: self.form, cache };
        let r = here.answered(envelope);
        proof {
            match seen {
                Some(read) => {
                    assert forall|other: OpenIDParameters| #[trigger]
                        other.read_from(answer) implies other.form() == read.response.form() by {
                        lemma_form_is_read(read.response, other, answer);
                    }
                },
                None => {},
            }
        }
        r
    }

    /// Whether `r` is how the login goes on after the provider's answer
    /// was read as `envelope`.
    ///
    /// No envelope means wrong credentials, a `LoginError`; an envelope
    /// without success is an `AuthenticationError`. The `openid.return_to`
    /// of the answer has to be a URL, and every member of the answer has
    /// to fit into a form.
    pub open spec fn answer_taken(
        self,
        envelope: Option<OpenIDResponse>,
        r: Result<HandshakeCompletion, OpenIDClientError>,
    ) -> bool {
        match envelope {
            None => r matches Err(OpenIDClientError::LoginError),
            Some(envelope) => if !envelope.success {
                r matches Err(e) && e.is_authentication(AUTHENTICATION_REJECTED@)
            } else if url_text(envelope.response.return_to@) is None {
                r matches Err(e) && e is UrlParsingError
            } else {
                match envelope.response.form() {
                    Some(form) => {
                        &&& r matches Ok(completion)
                        &&& completion.context == self.context
                        &&& completion.params == envelope.response
                        &&& completion.return_url.parsed_from(envelope.response.return_to@)
                        &&& pairs_view(completion.form@) == form
                        &&& completion.cache == self.cache
                    },
                    None => r matches Err(e) && e.is_request(UNSUPPORTED_FORM_VALUE@),
                }
            },
        }
    }

    /// The next step of the login, given what the provider's answer was
    /// read as.
    pub fn answered(self, envelope: Option<OpenIDResponse>) -> (r: Result<
        HandshakeCompletion,
        OpenIDClientError,
    >)
        ensures
            self.answer_taken(envelope, r),
    {
        let envelope = match envelope {
            Some(envelope) => envelope,
            None => {
                return Err(OpenIDClientError::LoginError);
            },
        };
        if !envelope.success {
            return Err(
                OpenIDClientError::AuthenticationError {
                    error: AUTHENTICATION_REJECTED.to_string(),
                },
            );
        }
        let return_url = Address::parse(envelope.response.return_to.as_str());
        self.returning(envelope.response, return_url)
    }

    /// The next step of the login after the provider has accepted it, given
    /// its answer and what the `openid.return_to` of the answer was read
    /// as: a `UrlParsingError` where that is no URL, a `RequestError` where
    /// a member of the answer does not fit into a form, and else the
    /// handshake that is to be completed at that URL with the form of the
    /// answer.
    pub fn returning(
        self,
        params: OpenIDParameters,
        return_url: Result<Address, url::ParseError>,
    ) -> (r: Result<HandshakeCompletion, OpenIDClientError>)
        ensures
            match return_url {
                Err(error) => r matches Err(e) && e == (OpenIDClientError::UrlParsingError {
                    error,
                }),
                Ok(url) => match params.form() {
                    Some(form) => {
                        &&& r matches Ok(completion)
                        &&& completion.context == self.context
                        &&& completion.params == params
                        &&& completion.return_url == url
                        &&& pairs_view(completion.form@) == form
                        &&& completion.cache == self.cache
                    },
                    None => r matches Err(e) && e.is_request(UNSUPPORTED_FORM_VALUE@),
                },
            },
    {
        let return_url = match return_url {
            Ok(url) => url,
            Err(error) => {
                return Err(OpenIDClientError::UrlParsingError { error });
            },
        };
        let form = match params.form_fields() {
            Some(form) => form,
            None => {
                return Err(
                    OpenIDClientError::RequestError { error: UNSUPPORTED_FORM_VALUE.to_string() },
                );
            },
        };
        Ok(
            HandshakeCompletion {
                context: self.context,
                return_url,
                form,
                params,
                cache: self.cache,
            },
        )
    }
}

/// Parameters that were read from the same document make the same form.
pub proof fn lemma_form_is_read(a: OpenIDParameters, b: OpenIDParameters, doc: JsonModel)
    requires
        a.read_from(doc),
        b.read_from(doc),
    ensures
        a.form() == b.form(),
{
    assert(a.openid_fields() =~= b.openid_fields());
}

impl HandshakeCompletion {
    /// Whether `r` is how the login ends after what the site answered at
    /// the time `now`.
    ///
    /// A request that failed fails the login with a `RequestError`, a
    /// status that is neither a success nor a redirect with an
    /// `AuthenticationError`. Else the session is there: with the OpenID
    /// parameters, the cookies of all responses, a client that follows
    /// redirects, and the cookies to be saved if they are cached at all.
    pub open spec fn advanced(
        self,
        reply: Result<SiteReply, String>,
        now: i64,
        r: Result<OpenIDSession, OpenIDClientError>,
    ) -> bool {
        match reply {
            Err(message) => r matches Err(e) && e.is_request(message@),
            Ok(reply) => if !succeeds(reply.status) && !redirects(reply.status) {
                r matches Err(e) && e.is_authentication(HANDSHAKE_REJECTED@)
            } else {
                &&& r matches Ok(session)
                &&& session.params == Some(self.params)
                &&& session.save_cache == self.context.cache_cookies
                &&& session.cache.login_url == self.cache.login_url
                &&& session.cache.records() == ingested_all(
                    self.cache.records(),
                    reply.set_cookies@,
                    self.return_url.text(),
                    now,
                )
                &&& session_settings(
                    session.settings,
                    self.context.timeout,
                    self.context.user_agent@,
                )
            },
        }
    }

    /// The end of the login, given what the site answered to the `POST` of
    /// the form at the time `now`.
    pub fn advance(self, reply: Result<SiteReply, String>, now: i64) -> (r: Result<
        OpenIDSession,
        OpenIDClientError,
    >)
        ensures
            self.advanced(reply, now, r),
    {
        let reply = match reply {
            Ok(reply) => reply,
            Err(message) => {
                return Err(OpenIDClientError::RequestError { error: message });
            },
        };
        let mut cache = self.cache;
        cache.ingest_cookies_at(&reply.set_cookies, self.return_url.as_str(), now);
        if !(reply.status >= 200 && reply.status < 400) {
            return Err(
                OpenIDClientError::AuthenticationError { error: HANDSHAKE_REJECTED.to_string() },
            );
        }
        let settings = final_settings(self.context.timeout, self.context.user_agent);
        Ok(
            OpenIDSession {
                settings,
                cache,
                params: Some(self.params),
                save_cache: self.context.cache_cookies,
            },
        )
    }
}

} // verus!
