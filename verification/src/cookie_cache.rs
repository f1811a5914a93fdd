//! The cookies of a login, kept between runs.
//!
//! A cache belongs to one login URL. It is fresh as long as none of its
//! cookies has expired.

use vstd::prelude::*;

use crate::address::Address;
use crate::cookie_record::{
    attributes_view, convert_cookie, convertible, expiry, in_scope, parsed_cookie, records,
    CookieAttributes, CookieRecord, SimpleCookie,
};
use crate::timestamp;

verus! {

/// The list after a cookie was stored in it: it takes the place of the
/// first cookie with its name, or goes to the end where there is none.
pub open spec fn stored(cookies: Seq<CookieRecord>, cookie: CookieRecord) -> Seq<CookieRecord>
    decreases cookies.len(),
{
    if cookies.len() == 0 {
        seq![cookie]
    } else if cookies[0].name == cookie.name {
        cookies.update(0, cookie)
    } else {
        seq![cookies[0]] + stored(cookies.skip(1), cookie)
    }
}

/// The list after the cookie was stored in it that a `Set-Cookie` header
/// describes: `attributes` is what was read from the header, `header` its
/// text, `origin` the URL of the request whose response had it, `now` the
/// time at which it came. Where nothing was read, or the expiry cannot be
/// held, the list is unchanged.
pub open spec fn taken(
    cookies: Seq<CookieRecord>,
    attributes: Option<(Seq<char>, Seq<char>, Option<i64>, Option<i64>)>,
    header: Seq<char>,
    origin: Seq<char>,
    now: i64,
) -> Seq<CookieRecord> {
    match attributes {
        Some((name, value, max_age, expires)) => if convertible(max_age, expires, now) {
            stored(
                cookies,
                CookieRecord {
                    name,
                    value,
                    expires: match expiry(max_age, expires, now) {
                        Some(at) => Some(at as i64),
                        None => None,
                    },
                    header,
                    origin,
                },
            )
        } else {
            cookies
        },
        None => cookies,
    }
}

/// The list after the cookie of one `Set-Cookie` header was stored in it,
/// where the header came at the time `now` in the response to a request to
/// `origin`. A header that cannot be read or whose expiry cannot be held
/// changes nothing.
pub open spec fn ingested(
    cookies: Seq<CookieRecord>,
    header: Seq<char>,
    origin: Seq<char>,
    now: i64,
) -> Seq<CookieRecord> {
    taken(cookies, parsed_cookie(header), header, origin, now)
}

/// The list after the cookies of the headers of one response were stored
/// in it, one after the other.
pub open spec fn ingested_all(
    cookies: Seq<CookieRecord>,
    headers: Seq<String>,
    origin: Seq<char>,
    now: i64,
) -> Seq<CookieRecord>
    decreases headers.len(),
{
    if headers.len() == 0 {
        cookies
    } else {
        ingested(
            ingested_all(cookies, headers.drop_last(), origin, now),
            headers.last()@,
            origin,
            now,
        )
    }
}

/// The cookies of a list that are picked by a list of flags, in their
/// order: those at whose place the flag is set.
pub open spec fn picked(cookies: Seq<CookieRecord>, flags: Seq<bool>) -> Seq<CookieRecord>
    decreases cookies.len(),
{
    if cookies.len() == 0 {
        Seq::empty()
    } else if cookies.len() <= flags.len() && flags[cookies.len() - 1] {
        picked(cookies.drop_last(), flags).push(cookies.last())
    } else {
        picked(cookies.drop_last(), flags)
    }
}

/// For every cookie of a list, whether it goes along with a request to
/// `destination`.
pub open spec fn scope_flags(cookies: Seq<CookieRecord>, destination: Seq<char>) -> Seq<bool> {
    Seq::new(cookies.len(), |i: int| in_scope(cookies[i].header, cookies[i].origin, destination))
}

/// The cookies of a list that go along with a request to `destination`, in
/// their order.
pub open spec fn sent_to(cookies: Seq<CookieRecord>, destination: Seq<char>) -> Seq<CookieRecord> {
    picked(cookies, scope_flags(cookies, destination))
}

/// Flags that are all set pick every cookie.
pub proof fn lemma_picked_all(cookies: Seq<CookieRecord>, flags: Seq<bool>)
    requires
        cookies.len() <= flags.len(),
        forall|i: int| 0 <= i < cookies.len() ==> flags[i],
    ensures
        picked(cookies, flags) == cookies,
    decreases cookies.len(),
{
    if cookies.len() > 0 {
        lemma_picked_all(cookies.drop_last(), flags);
        assert(cookies.drop_last().push(cookies.last()) =~= cookies);
    }
}

/// Whether a cookie has expired at the time `now`: it has an expiry, at or
/// before that time.
pub open spec fn is_past(cookie: CookieRecord, now: i64) -> bool {
    match cookie.expires {
        Some(at) => at <= now,
        None => false,
    }
}

/// Whether some cookie of the list has expired at the time `now`.
pub open spec fn expired_at(cookies: Seq<CookieRecord>, now: i64) -> bool {
    exists|i: int| 0 <= i < cookies.len() && is_past(#[trigger] cookies[i], now)
}

/// A cookie as it stands in a `Cookie` header.
pub open spec fn cookie_pair(cookie: CookieRecord) -> Seq<char> {
    cookie.name + "="@ + cookie.value
}

/// The value of the `Cookie` header that sends all cookies of a list.
pub open spec fn cookie_header(cookies: Seq<CookieRecord>) -> Seq<char>
    decreases cookies.len(),
{
    if cookies.len() == 0 {
        Seq::empty()
    } else if cookies.len() == 1 {
        cookie_pair(cookies[0])
    } else {
        cookie_header(cookies.drop_last()) + "; "@ + cookie_pair(cookies.last())
    }
}

/// A cache without an expiring cookie is fresh at every time.
pub proof fn lemma_fresh_without_expiry(cookies: Seq<CookieRecord>, now: i64)
    requires
        forall|i: int| 0 <= i < cookies.len() ==> (#[trigger] cookies[i]).expires is None,
    ensures
        !expired_at(cookies, now),
{
}

/// A cache with a cookie whose expiry lies at or before a time has expired
/// at that time.
pub proof fn lemma_expired_in_the_past(cookies: Seq<CookieRecord>, i: int, now: i64)
    requires
        0 <= i < cookies.len(),
        cookies[i].expires matches Some(at) && at <= now,
    ensures
        expired_at(cookies, now),
{
    assert(is_past(cookies[i], now));
}

/// A cache all of whose expiries lie after a time is fresh at that time.
pub proof fn lemma_fresh_in_the_future(cookies: Seq<CookieRecord>, now: i64)
    requires
        forall|i: int|
            0 <= i < cookies.len() ==> ((#[trigger] cookies[i]).expires matches Some(at) ==> at
                > now),
    ensures
        !expired_at(cookies, now),
{
}

/// Moving the one expiry of a cache from the past into the future makes an
/// expired cache fresh.
pub proof fn lemma_shifted_expiry(cookies: Seq<CookieRecord>, i: int, later: i64, now: i64)
    requires
        0 <= i < cookies.len(),
        cookies[i].expires matches Some(at) && at <= now,
        forall|j: int| 0 <= j < cookies.len() && j != i ==> (#[trigger] cookies[j]).expires is None,
        later > now,
    ensures
        expired_at(cookies, now),
        !expired_at(
            cookies.update(
                i,
                CookieRecord { expires: Some(later), ..cookies[i] },
            ),
            now,
        ),
{
    assert(is_past(cookies[i], now));
    let shifted = cookies.update(
        i,
        CookieRecord { expires: Some(later), ..cookies[i] },
    );
    assert forall|j: int| 0 <= j < shifted.len() implies !is_past(#[trigger] shifted[j], now) by {
        if j != i {
            assert(cookies[j].expires is None);
        }
    }
}

/// Storing a cookie whose name the list has replaces the first cookie with
/// that name.
pub proof fn lemma_stored_replaces(cookies: Seq<CookieRecord>, cookie: CookieRecord, i: int)
    requires
        0 <= i < cookies.len(),
        cookies[i].name == cookie.name,
        forall|j: int| 0 <= j < i ==> (#[trigger] cookies[j]).name != cookie.name,
    ensures
        stored(cookies, cookie) == cookies.update(i, cookie),
    decreases i,
{
    if i > 0 {
        let rest = cookies.skip(1);
        assert(cookies[0].name != cookie.name);
        assert forall|j: int| 0 <= j < i - 1 implies (#[trigger] rest[j]).name != cookie.name by {
            assert(cookies[j + 1].name != cookie.name);
        }
        lemma_stored_replaces(rest, cookie, i - 1);
        assert(seq![cookies[0]] + rest.update(i - 1, cookie) =~= cookies.update(i, cookie));
    }
}

/// Storing a cookie whose name the list does not have appends it.
pub proof fn lemma_stored_appends(cookies: Seq<CookieRecord>, cookie: CookieRecord)
    requires
        forall|j: int| 0 <= j < cookies.len() ==> (#[trigger] cookies[j]).name != cookie.name,
    ensures
        stored(cookies, cookie) == cookies.push(cookie),
    decreases cookies.len(),
{
    if cookies.len() == 0 {
        assert(seq![cookie] =~= cookies.push(cookie));
    } else {
        let rest = cookies.skip(1);
        assert(cookies[0].name != cookie.name);
        assert forall|j: int| 0 <= j < rest.len() implies (#[trigger] rest[j]).name
            != cookie.name by {
            assert(cookies[j + 1].name != cookie.name);
        }
        lemma_stored_appends(rest, cookie);
        assert(seq![cookies[0]] + rest.push(cookie) =~= cookies.push(cookie));
    }
}

/// The cookies of a login and the login URL that they belong to.
#[derive(Debug, PartialEq, Eq)]
pub struct CookieCache {
    pub login_url: String,
    pub cookies: Vec<SimpleCookie>,
}

impl CookieCache {
    /// The cookies of the cache, each as a value.
    pub open spec fn records(self) -> Seq<CookieRecord> {
        records(self.cookies@)
    }

    /// An empty cache for a login URL.
    pub fn new(login_url: String) -> (cache: CookieCache)
        ensures
            cache.login_url == login_url,
            cache.cookies@.len() == 0,
    {
        CookieCache { login_url, cookies: Vec::new() }
    }

    /// Whether the cache holds no cookie.
    pub fn is_empty(&self) -> (r: bool)
        ensures
            r == (self.cookies@.len() == 0),
    {
        self.cookies.len() == 0
    }

    /// Stores a cookie: it takes the place of the first cookie with its
    /// name, or goes to the end where there is none.
    pub fn store(&mut self, cookie: SimpleCookie)
        ensures
            final(self).login_url == old(self).login_url,
            final(self).records() == stored(old(self).records(), cookie@),
    {
        let ghost before = self.records();
        let mut i: usize = 0;
        while i < self.cookies.len()
            invariant
                i <= self.cookies@.len(),
                self.records() == before,
                before == old(self).records(),
                self.login_url == old(self).login_url,
                forall|j: int| 0 <= j < i ==> (#[trigger] before[j]).name != cookie.name@,
            decreases self.cookies@.len() - i,
        {
            if self.cookies[i].name == cookie.name {
                proof {
                    lemma_stored_replaces(before, cookie@, i as int);
                }
                self.cookies.set(i, cookie);
                assert(self.records() =~= before.update(i as int, cookie@));
                return ;
            }
            assert(before[i as int].name != cookie.name@);
            i += 1;
        }
        proof {
            lemma_stored_appends(before, cookie@);
        }
        self.cookies.push(cookie);
        assert(self.records() =~= before.push(cookie@));
    }

    /// Stores the cookie that a `Set-Cookie` header describes: `attributes`
    /// is what was read from the header, `header` its text, `origin` the
    /// URL of the request whose response had it, `now` the time at which it
    /// came. Where nothing was read, or the expiry cannot be held, the
    /// cache is unchanged.
    pub fn ingest(
        &mut self,
        attributes: Option<CookieAttributes>,
        header: &str,
        origin: &str,
        now: i64,
    )
        ensures
            final(self).login_url == old(self).login_url,
            final(self).records() == taken(
                old(self).records(),
                attributes_view(attributes),
                header@,
                origin@,
                now,
            ),
    {
        match attributes {
            Some(attributes) => {
                if attributes.is_convertible(now) {
                    let cookie = convert_cookie(attributes, header, origin, now);
                    self.store(cookie);
                }
            },
            None => {},
        }
    }

    /// Stores the cookie of one `Set-Cookie` header, which came at the time
    /// `now` in the response to a request to `origin`. A header that cannot
    /// be read or whose expiry cannot be held changes nothing.
    pub fn ingest_header(&mut self, header: &str, origin: &str, now: i64)
        ensures
            final(self).login_url == old(self).login_url,
            final(self).records() == ingested(old(self).records(), header@, origin@, now),
    {
        let attributes = CookieAttributes::parse(header);
        self.ingest(attributes, header, origin, now);
    }

    /// Stores the cookies of the `Set-Cookie` headers of a response, which
    /// came at the time `now` to a request to `origin`, one after the
    /// other.
    pub fn ingest_cookies_at(&mut self, headers: &Vec<String>, origin: &str, now: i64)
        ensures
            final(self).login_url == old(self).login_url,
            final(self).records() == ingested_all(old(self).records(), headers@, origin@, now),
    {
        let mut i: usize = 0;
        while i < headers.len()
            invariant
                i <= headers@.len(),
                self.login_url == old(self).login_url,
                self.records() == ingested_all(
                    old(self).records(),
                    headers@.take(i as int),
                    origin@,
                    now,
                ),
            decreases headers@.len() - i,
        {
            self.ingest_header(headers[i].as_str(), origin, now);
            proof {
                assert(headers@.take(i + 1).drop_last() =~= headers@.take(i as int));
                assert(headers@.take(i + 1).last() == headers@[i as int]);
            }
            i += 1;
        }
        assert(headers@.take(i as int) =~= headers@);
    }

    /// Stores the cookies of the `Set-Cookie` headers of a response to a
    /// request to `origin`, which came now: whatever the clock says, the
    /// cache holds what `ingest_cookies_at` gives for that time.
    pub fn ingest_cookies(&mut self, headers: &Vec<String>, origin: &str)
        ensures
            final(self).login_url == old(self).login_url,
            exists|now: i64|
                final(self).records() == #[trigger] ingested_all(
                    old(self).records(),
                    headers@,
                    origin@,
                    now,
                ),
    {
        let now = timestamp::now();
        self.ingest_cookies_at(headers, origin, now);
    }

    /// Whether some cookie has expired at the time `now`.
    pub fn is_expired_at(&self, now: i64) -> (r: bool)
        ensures
            r == expired_at(self.records(), now),
    {
        let mut i: usize = 0;
        while i < self.cookies.len()
            invariant
                i <= self.cookies@.len(),
                forall|j: int| 0 <= j < i ==> !is_past(#[trigger] self.records()[j], now),
            decreases self.cookies@.len() - i,
        {
            match self.cookies[i].expires {
                Some(at) => {
                    if at <= now {
                        assert(is_past(self.records()[i as int], now));
                        return true;
                    }
                },
                None => {},
            }
            i += 1;
        }
        false
    }

    /// Whether some cookie has expired now: whatever the clock says, this
    /// is what `is_expired_at` gives for that time.
    pub fn is_expired(&self) -> (r: bool)
        ensures
            exists|now: i64| r == #[trigger] expired_at(self.records(), now),
    {
        let now = timestamp::now();
        self.is_expired_at(now)
    }

    /// Whether no cookie has expired at the time `now`.
    pub fn is_fresh_at(&self, now: i64) -> (r: bool)
        ensures
            r == !expired_at(self.records(), now),
    {
        !self.is_expired_at(now)
    }

    /// Whether no cookie has expired now: whatever the clock says, this is
    /// what `is_fresh_at` gives for that time. A cache without an expiring
    /// cookie is fresh whatever the time.
    pub fn is_fresh(&self) -> (r: bool)
        ensures
            exists|now: i64| r == !#[trigger] expired_at(self.records(), now),
    {
        let now = timestamp::now();
        self.is_fresh_at(now)
    }

    /// For every cookie of the cache, whether it goes along with a request
    /// to `destination`.
    pub fn in_scope_of(&self, destination: &Address) -> (flags: Vec<bool>)
        ensures
            flags@ == scope_flags(self.records(), destination.text()),
    {
        let mut flags: Vec<bool> = Vec::new();
        let mut i: usize = 0;
        while i < self.cookies.len()
            invariant
                i <= self.cookies@.len(),
                flags@ == scope_flags(self.records(), destination.text()).take(i as int),
            decreases self.cookies@.len() - i,
        {
            let flag = self.cookies[i].is_sent_to(destination);
            flags.push(flag);
            assert(flags@ =~= scope_flags(self.records(), destination.text()).take(i + 1));
            i += 1;
        }
        assert(flags@ =~= scope_flags(self.records(), destination.text()));
        flags
    }

    /// The value of the `Cookie` header that sends the cookies of the cache
    /// that the flags pick, as `name=value` joined with `; `. Where no
    /// cookie is picked there is no header.
    pub fn cookie_header_of(&self, selected: &Vec<bool>) -> (r: Option<String>)
        ensures
            match r {
                Some(text) => picked(self.records(), selected@).len() > 0 && text@
                    == cookie_header(picked(self.records(), selected@)),
                None => picked(self.records(), selected@).len() == 0,
            },
    {
        let ghost all = self.records();
        let mut text = String::new();
        let mut any = false;
        let mut i: usize = 0;
        while i < self.cookies.len()
            invariant
                i <= self.cookies@.len(),
                all == self.records(),
                any == (picked(all.take(i as int), selected@).len() > 0),
                text@ == cookie_header(picked(all.take(i as int), selected@)),
            decreases self.cookies@.len() - i,
        {
            proof {
                assert(all.take(i + 1).drop_last() =~= all.take(i as int));
                assert(all.take(i + 1).last() == all[i as int]);
            }
            if i < selected.len() && selected[i] {
                proof {
                    let before = picked(all.take(i as int), selected@);
                    assert(before.push(all[i as int]).drop_last() =~= before);
                }
                if any {
                    text.append("; ");
                }
                text.append(self.cookies[i].name.as_str());
                text.append("=");
                text.append(self.cookies[i].value.as_str());
                any = true;
            }
            i += 1;
        }
        assert(all.take(i as int) =~= all);
        if any {
            Some(text)
        } else {
            None
        }
    }

    /// The value of the `Cookie` header of a request to `destination`: the
    /// cookies of the cache that go along with such a request, as
    /// `name=value` joined with `; `. Where none of them does there is no
    /// header.
    pub fn cookie_headers(&self, destination: &Address) -> (r: Option<String>)
        ensures
            match r {
                Some(text) => sent_to(self.records(), destination.text()).len() > 0 && text@
                    == cookie_header(sent_to(self.records(), destination.text())),
                None => sent_to(self.records(), destination.text()).len() == 0,
            },
    {
        let flags = self.in_scope_of(destination);
        self.cookie_header_of(&flags)
    }

    /// The value of a `Cookie` header that holds every cookie of the cache,
    /// as `name=value` joined with `; `. A cache without cookies has none.
    pub fn all_cookie_headers(&self) -> (r: Option<String>)
        ensures
            match r {
                Some(text) => self.cookies@.len() > 0 && text@ == cookie_header(self.records()),
                None => self.cookies@.len() == 0,
            },
    {
        let mut flags: Vec<bool> = Vec::new();
        let mut i: usize = 0;
        while i < self.cookies.len()
            invariant
                i <= self.cookies@.len(),
                flags@.len() == i,
                forall|j: int| 0 <= j < i ==> flags@[j],
            decreases self.cookies@.len() - i,
        {
            flags.push(true);
            i += 1;
        }
        proof {
            lemma_picked_all(self.records(), flags@);
        }
        self.cookie_header_of(&flags)
    }
}

} // verus!
