//! Cookies: what a `Set-Cookie` header says, read by the `cookie` crate,
//! the cookie that is kept of it, and the requests that it goes along with,
//! decided by the `cookie_store` crate.

use vstd::prelude::*;

use crate::address::Address;

verus! {

/// One cookie as a value: its name, its value, the point in time at which
/// it expires, if it does, and where it comes from.
pub struct CookieRecord {
    pub name: Seq<char>,
    pub value: Seq<char>,
    pub expires: Option<i64>,
    pub header: Seq<char>,
    pub origin: Seq<char>,
}

/// One cookie.
#[derive(Debug, PartialEq, Eq)]
pub struct SimpleCookie {
    pub name: String,
    pub value: String,
    /// When the cookie expires, in seconds since the UNIX epoch; a cookie
    /// without it lasts for the session.
    pub expires: Option<i64>,
    /// The value of the `Set-Cookie` header that set the cookie. Its
    /// attributes say which requests the cookie goes along with.
    pub header: String,
    /// The URL of the request whose response set the cookie.
    pub origin: String,
}

impl View for SimpleCookie {
    type V = CookieRecord;

    open spec fn view(&self) -> CookieRecord {
        CookieRecord {
            name: self.name@,
            value: self.value@,
            expires: self.expires,
            header: self.header@,
            origin: self.origin@,
        }
    }
}

/// Whether the `cookie_store` crate sends a cookie along with a request to
/// `destination`, where the cookie was set by the `Set-Cookie` header
/// `header` of a response to a request to `origin`. It sends none for a
/// header or a URL that it rejects.
pub uninterp spec fn in_scope(header: Seq<char>, origin: Seq<char>, destination: Seq<char>) -> bool;

/// `Cookie::parse` and `Cookie::matches` of the `cookie_store` crate, on
/// URLs read by `Url::parse`: whether the cookie that the header sets for
/// the origin matches the destination by domain, path, `Secure` and
/// `HttpOnly`. What comes out depends on the three texts alone: `in_scope`
/// is its name.
#[verifier::external_body]
fn cookie_matches(header: &str, origin: &str, destination: &str) -> (r: bool)
    ensures
        r == in_scope(header@, origin@, destination@),
{
    match (url::Url::parse(origin), url::Url::parse(destination)) {
        (Ok(from), Ok(to)) => cookie_store::Cookie::parse(header, &from).map_or(
            false,
            |cookie| cookie.matches(&to),
        ),
        _ => false,
    }
}

impl SimpleCookie {
    /// Whether the cookie goes along with a request to `destination`.
    pub fn is_sent_to(&self, destination: &Address) -> (r: bool)
        ensures
            r == in_scope(self.header@, self.origin@, destination.text()),
    {
        cookie_matches(self.header.as_str(), self.origin.as_str(), destination.as_str())
    }
}

/// What a `Set-Cookie` header says of a cookie: its name and value, its
/// `Max-Age` in seconds and its `Expires` in seconds since the UNIX epoch.
#[derive(Debug, PartialEq, Eq)]
pub struct CookieAttributes {
    pub name: String,
    pub value: String,
    pub max_age: Option<i64>,
    pub expires: Option<i64>,
}

impl View for CookieAttributes {
    type V = (Seq<char>, Seq<char>, Option<i64>, Option<i64>);

    open spec fn view(&self) -> (Seq<char>, Seq<char>, Option<i64>, Option<i64>) {
        (self.name@, self.value@, self.max_age, self.expires)
    }
}

/// What was read from a header, if anything, as a value.
pub open spec fn attributes_view(attributes: Option<CookieAttributes>) -> Option<
    (Seq<char>, Seq<char>, Option<i64>, Option<i64>),
> {
    match attributes {
        Some(a) => Some(a@),
        None => None,
    }
}

impl CookieAttributes {
    /// Reads the value of a `Set-Cookie` header.
    pub fn parse(header: &str) -> (r: Option<CookieAttributes>)
        ensures
            attributes_view(r) == parsed_cookie(header@),
    {
        parse_cookie(header)
    }

    /// Whether `convert_cookie` takes these attributes at the given time.
    pub fn is_convertible(&self, now: i64) -> (r: bool)
        ensures
            r == convertible(self.max_age, self.expires, now),
    {
        match (self.max_age, self.expires) {
            (Some(age), _) => now.checked_add(age).is_some(),
            (None, Some(at)) => at >= 0,
            (None, None) => true,
        }
    }
}

/// What the `cookie` crate reads from the value of a `Set-Cookie` header:
/// name, value, `Max-Age` and `Expires`; `None` for a header that it
/// rejects.
pub uninterp spec fn parsed_cookie(header: Seq<char>) -> Option<
    (Seq<char>, Seq<char>, Option<i64>, Option<i64>),
>;

/// `Cookie::parse` of the `cookie` crate, the cookie taken apart by
/// `name`, `value`, `max_age` (in whole seconds) and `expires_datetime` (as
/// a UNIX timestamp). What comes out depends on the header alone:
/// `parsed_cookie` is its name.
#[verifier::external_body]
fn parse_cookie(header: &str) -> (r: Option<CookieAttributes>)
    ensures
        attributes_view(r) == parsed_cookie(header@),
{
    match cookie::Cookie::parse(header) {
        Ok(c) => Some(
            CookieAttributes {
                name: c.name().to_string(),
                value: c.value().to_string(),
                max_age: c.max_age().map(|age| age.whole_seconds()),
                expires: c.expires_datetime().map(|at| at.unix_timestamp()),
            },
        ),
        Err(_) => None,
    }
}

/// The point in time at which a cookie expires: `Max-Age` counts from now
/// and goes before `Expires`.
pub open spec fn expiry(max_age: Option<i64>, expires: Option<i64>, now: i64) -> Option<int> {
    match (max_age, expires) {
        (Some(age), _) => Some(now + age),
        (None, Some(at)) => Some(at as int),
        (None, None) => None,
    }
}

/// Whether the expiry of a cookie can be held: it is a number of seconds
/// that fits, and its `Expires` does not lie before the UNIX epoch.
pub open spec fn convertible(max_age: Option<i64>, expires: Option<i64>, now: i64) -> bool {
    match (max_age, expires) {
        (Some(age), _) => i64::MIN <= now + age <= i64::MAX,
        (None, Some(at)) => at >= 0,
        (None, None) => true,
    }
}

/// The cookie that a `Set-Cookie` header describes: `cookie` is what the
/// header says, `header` its text, `origin` the URL of the request whose
/// response had it, `now` the time at which it came.
pub fn convert_cookie(cookie: CookieAttributes, header: &str, origin: &str, now: i64) -> (r:
    SimpleCookie)
    requires
        convertible(cookie.max_age, cookie.expires, now),
    ensures
        r.name == cookie.name,
        r.value == cookie.value,
        r.expires matches Some(at) ==> expiry(cookie.max_age, cookie.expires, now) == Some(
            at as int,
        ),
        r.expires is None ==> expiry(cookie.max_age, cookie.expires, now) is None,
        r.header@ == header@,
        r.origin@ == origin@,
{
    let expires = match (cookie.max_age, cookie.expires) {
        (Some(age), _) => Some(now + age),
        (None, Some(at)) => Some(at),
        (None, None) => None,
    };
    SimpleCookie {
        name: cookie.name,
        value: cookie.value,
        expires,
        header: header.to_string(),
        origin: origin.to_string(),
    }
}

/// The cookies of a list, each as a value.
pub open spec fn records(cookies: Seq<SimpleCookie>) -> Seq<CookieRecord> {
    Seq::new(cookies.len(), |i: int| cookies[i]@)
}

} // verus!
