//! The cookie cache as a JSON document: how it is written to disk and read
//! back.

use vstd::prelude::*;

use crate::cookie_record::{records, CookieRecord, SimpleCookie};
use crate::cookie_cache::CookieCache;
use crate::error::CookieCacheError;
use crate::json::{
    items_view, json_document, json_text, lemma_list_view, lemma_member_first, lemma_object_view,
    text_field, text_member, Json, JsonError, JsonModel,
};
use crate::timestamp;
use crate::timestamp::{text_timestamp, timestamp_text};

verus! {

/// What was found where the cache is kept on disk.
#[derive(Debug)]
pub enum CacheFile {
    /// There is no file.
    Missing,
    /// There is a file, and it could not be read.
    Unreadable,
    /// The text of the file.
    Contents(String),
}

/// The document that holds an expiry: its RFC 3339 text, or `null` where
/// there is none. `None` for an expiry that has no such text.
pub open spec fn expiry_document(expires: Option<i64>) -> Option<JsonModel> {
    match expires {
        None => Some(JsonModel::Null),
        Some(at) => match timestamp_text(at) {
            Some(text) => Some(JsonModel::Text(text)),
            None => None,
        },
    }
}

/// The document that holds a cookie: an object with its `name`, its
/// `value`, its expiry under `expires`, and under `header` and `origin`
/// where it comes from. `None` for an expiry that has no document.
pub open spec fn cookie_document(cookie: CookieRecord) -> Option<JsonModel> {
    match expiry_document(cookie.expires) {
        Some(expires) => Some(
            JsonModel::Object(
                seq![
                    ("name"@, JsonModel::Text(cookie.name)),
                    ("value"@, JsonModel::Text(cookie.value)),
                    ("expires"@, expires),
                    ("header"@, JsonModel::Text(cookie.header)),
                    ("origin"@, JsonModel::Text(cookie.origin)),
                ],
            ),
        ),
        None => None,
    }
}

/// The documents that hold the cookies of a list, in their order.
pub open spec fn cookie_documents(cookies: Seq<CookieRecord>) -> Option<Seq<JsonModel>>
    decreases cookies.len(),
{
    if cookies.len() == 0 {
        Some(Seq::empty())
    } else {
        match (cookie_documents(cookies.drop_last()), cookie_document(cookies.last())) {
            (Some(front), Some(last)) => Some(front.push(last)),
            _ => None,
        }
    }
}

/// The document that holds a cache: an object with the `login_url` and the
/// list of `cookies`.
pub open spec fn cache_document(login_url: Seq<char>, cookies: Seq<CookieRecord>) -> Option<
    JsonModel,
> {
    match cookie_documents(cookies) {
        Some(items) => Some(
            JsonModel::Object(
                seq![
                    ("login_url"@, JsonModel::Text(login_url)),
                    ("cookies"@, JsonModel::List(items)),
                ],
            ),
        ),
        None => None,
    }
}

/// The expiry that a document holds under `expires`: none where the member
/// is missing or `null`, the point in time that a text names. `None` for
/// anything else.
pub open spec fn expiry_of_document(doc: JsonModel) -> Option<Option<i64>> {
    match doc.get("expires"@) {
        None => Some(None),
        Some(JsonModel::Null) => Some(None),
        Some(JsonModel::Text(text)) => match text_timestamp(text) {
            Some(at) => Some(Some(at)),
            None => None,
        },
        Some(_) => None,
    }
}

/// The cookie that a document holds; `None` for a document that holds
/// none.
pub open spec fn cookie_of_document(doc: JsonModel) -> Option<CookieRecord> {
    match (
        text_member(doc, "name"@),
        text_member(doc, "value"@),
        expiry_of_document(doc),
        text_member(doc, "header"@),
        text_member(doc, "origin"@),
    ) {
        (Some(name), Some(value), Some(expires), Some(header), Some(origin)) => Some(
            CookieRecord { name, value, expires, header, origin },
        ),
        _ => None,
    }
}

/// The cookies that a list of documents holds; `None` if one of them holds
/// none.
pub open spec fn cookies_of_documents(items: Seq<JsonModel>) -> Option<Seq<CookieRecord>>
    decreases items.len(),
{
    if items.len() == 0 {
        Some(Seq::empty())
    } else {
        match (cookies_of_documents(items.drop_last()), cookie_of_document(items.last())) {
            (Some(front), Some(last)) => Some(front.push(last)),
            _ => None,
        }
    }
}

/// The login URL and the cookies that a document holds; `None` for a
/// document that holds no cache.
pub open spec fn cache_of_document(doc: JsonModel) -> Option<(Seq<char>, Seq<CookieRecord>)> {
    match (text_member(doc, "login_url"@), doc.get("cookies"@)) {
        (Some(login_url), Some(JsonModel::List(items))) => match cookies_of_documents(items) {
            Some(cookies) => Some((login_url, cookies)),
            None => None,
        },
        _ => None,
    }
}

/// A list with a document that holds no cookie holds no cookies.
proof fn lemma_cookies_of_documents_none(items: Seq<JsonModel>, i: int)
    requires
        0 <= i < items.len(),
        cookie_of_document(items[i]) is None,
    ensures
        cookies_of_documents(items) is None,
    decreases items.len(),
{
    if i < items.len() - 1 {
        lemma_cookies_of_documents_none(items.drop_last(), i);
    }
}

/// A list with a cookie that has no document has no documents.
proof fn lemma_cookie_documents_none(cookies: Seq<CookieRecord>, i: int)
    requires
        0 <= i < cookies.len(),
        cookie_document(cookies[i]) is None,
    ensures
        cookie_documents(cookies) is None,
    decreases cookies.len(),
{
    if i < cookies.len() - 1 {
        lemma_cookie_documents_none(cookies.drop_last(), i);
    }
}

/// What a cookie's document holds is the cookie, where the text of its
/// expiry names that expiry.
pub proof fn lemma_cookie_round_trip(cookie: CookieRecord)
    requires
        cookie.expires matches Some(at) ==> timestamp_text(at) matches Some(text)
            && text_timestamp(text) == Some(at),
    ensures
        cookie_document(cookie) matches Some(doc) && cookie_of_document(doc) == Some(cookie),
{
    reveal_strlit("name");
    reveal_strlit("value");
    reveal_strlit("expires");
    reveal_strlit("header");
    reveal_strlit("origin");
    assert("name"@.len() == 4 && "value"@.len() == 5 && "expires"@.len() == 7);
    assert("header"@.len() == 6 && "origin"@.len() == 6);
    assert("header"@[0] != "origin"@[0]);
    let doc = cookie_document(cookie).unwrap();
    let members = doc->Object_0;
    lemma_member_first(members, "name"@, 0);
    lemma_member_first(members, "value"@, 1);
    lemma_member_first(members, "expires"@, 2);
    lemma_member_first(members, "header"@, 3);
    lemma_member_first(members, "origin"@, 4);
}

/// What the documents of a list of cookies hold are the cookies, where the
/// text of every expiry names that expiry.
pub proof fn lemma_cookies_round_trip(cookies: Seq<CookieRecord>)
    requires
        forall|i: int|
            0 <= i < cookies.len() ==> ((#[trigger] cookies[i]).expires matches Some(at)
                ==> timestamp_text(at) matches Some(text) && text_timestamp(text) == Some(at)),
    ensures
        cookie_documents(cookies) matches Some(items) && cookies_of_documents(items) == Some(
            cookies,
        ),
    decreases cookies.len(),
{
    if cookies.len() > 0 {
        let front = cookies.drop_last();
        assert forall|i: int| 0 <= i < front.len() implies ((#[trigger] front[i]).expires matches Some(
            at,
        ) ==> timestamp_text(at) matches Some(text) && text_timestamp(text) == Some(at)) by {
            assert(front[i] == cookies[i]);
        }
        lemma_cookies_round_trip(front);
        assert(cookies.last() == cookies[cookies.len() - 1]);
        lemma_cookie_round_trip(cookies.last());
        let items = cookie_documents(cookies).unwrap();
        assert(items.drop_last() =~= cookie_documents(front).unwrap());
        assert(front.push(cookies.last()) =~= cookies);
    } else {
        assert(cookies =~= Seq::empty());
    }
}

/// Writing a cache as a document and reading the document gives the cache
/// back: the same login URL and cookies with the same names, values and
/// expiries. This holds where the text of every expiry names that expiry.
pub proof fn lemma_cache_round_trip(login_url: Seq<char>, cookies: Seq<CookieRecord>)
    requires
        forall|i: int|
            0 <= i < cookies.len() ==> ((#[trigger] cookies[i]).expires matches Some(at)
                ==> timestamp_text(at) matches Some(text) && text_timestamp(text) == Some(at)),
    ensures
        cache_document(login_url, cookies) matches Some(doc) && cache_of_document(doc) == Some(
            (login_url, cookies),
        ),
{
    reveal_strlit("login_url");
    reveal_strlit("cookies");
    lemma_cookies_round_trip(cookies);
    assert("login_url"@.len() == 9 && "cookies"@.len() == 7);
    let doc = cache_document(login_url, cookies).unwrap();
    let members = doc->Object_0;
    lemma_member_first(members, "login_url"@, 0);
    lemma_member_first(members, "cookies"@, 1);
}

impl CookieCache {
    /// The document that holds the cache, where every expiry has a text.
    pub fn to_json(&self) -> (r: Option<Json>)
        ensures
            match r {
                Some(doc) => cache_document(self.login_url@, self.records()) == Some(doc@),
                None => cache_document(self.login_url@, self.records()) is None,
            },
    {
        let mut items: Vec<Json> = Vec::new();
        let mut i: usize = 0;
        while i < self.cookies.len()
            invariant
                i <= self.cookies@.len(),
                cookie_documents(self.records().take(i as int)) == Some(items_view(items@)),
            decreases self.cookies@.len() - i,
        {
            proof {
                let all = self.records();
                assert(all.take(i + 1).drop_last() =~= all.take(i as int));
                assert(all.take(i + 1).last() == all[i as int]);
            }
            let cookie = &self.cookies[i];
            let expires = match cookie.expires {
                Some(at) => match timestamp::to_text(at) {
                    Some(text) => Json::Text(text),
                    None => {
                        proof {
                            lemma_cookie_documents_none(self.records(), i as int);
                        }
                        return None;
                    },
                },
                None => Json::Null,
            };
            let mut members: Vec<(String, Json)> = Vec::new();
            members.push(("name".to_string(), Json::Text(cookie.name.clone())));
            members.push(("value".to_string(), Json::Text(cookie.value.clone())));
            members.push(("expires".to_string(), expires));
            members.push(("header".to_string(), Json::Text(cookie.header.clone())));
            members.push(("origin".to_string(), Json::Text(cookie.origin.clone())));
            let item = Json::Object(members);
            proof {
                lemma_object_view(members);
                assert(item@->Object_0 =~= cookie_document(cookie@).unwrap()->Object_0);
            }
            let ghost before = items_view(items@);
            items.push(item);
            assert(items_view(items@) =~= before.push(item@));
            i += 1;
        }
        assert(self.records().take(i as int) =~= self.records());
        let mut members: Vec<(String, Json)> = Vec::new();
        members.push(("login_url".to_string(), Json::Text(self.login_url.clone())));
        let list = Json::List(items);
        proof {
            lemma_list_view(items);
        }
        members.push(("cookies".to_string(), list));
        let doc = Json::Object(members);
        proof {
            lemma_object_view(members);
            assert(doc@->Object_0 =~= cache_document(
                self.login_url@,
                self.records(),
            ).unwrap()->Object_0);
        }
        Some(doc)
    }

    /// The cache that a document holds, if it holds one.
    pub fn from_json(doc: &Json) -> (r: Option<CookieCache>)
        ensures
            match r {
                Some(cache) => cache_of_document(doc@) == Some((cache.login_url@, cache.records())),
                None => cache_of_document(doc@) is None,
            },
    {
        let login_url = text_field(doc, "login_url")?;
        let items = match doc.member("cookies") {
            Some(Json::List(items)) => items,
            _ => {
                return None;
            },
        };
        proof {
            lemma_list_view(*items);
        }
        let ghost all = items_view(items@);
        let mut cookies: Vec<SimpleCookie> = Vec::new();
        let mut i: usize = 0;
        while i < items.len()
            invariant
                i <= items@.len(),
                all == items_view(items@),
                text_member(doc@, "login_url"@) == Some(login_url@),
                doc@.get("cookies"@) == Some(JsonModel::List(all)),
                cookies_of_documents(all.take(i as int)) == Some(records(cookies@)),
            decreases items@.len() - i,
        {
            proof {
                assert(all.take(i + 1).drop_last() =~= all.take(i as int));
                assert(all.take(i + 1).last() == all[i as int]);
            }
            match read_cookie(&items[i]) {
                Some(cookie) => {
                    let ghost before = records(cookies@);
                    cookies.push(cookie);
                    assert(records(cookies@) =~= before.push(cookie@));
                },
                None => {
                    proof {
                        lemma_cookies_of_documents_none(all, i as int);
                    }
                    return None;
                },
            }
            i += 1;
        }
        assert(all.take(i as int) =~= all);
        Some(CookieCache { login_url, cookies })
    }

    /// The text that holds the cache: what is to be written to disk. It
    /// fails with `SerializationError` exactly where the cache has no
    /// document.
    pub fn write_cached(&self) -> (r: Result<String, CookieCacheError>)
        ensures
            match r {
                Ok(text) => cache_document(self.login_url@, self.records()) matches Some(doc)
                    && json_text(doc) == Some(text@),
                Err(e) => e is SerializationError && !(cache_document(
                    self.login_url@,
                    self.records(),
                ) matches Some(doc) && json_text(doc) is Some),
            },
    {
        let rendered = match self.to_json() {
            Some(doc) => doc.render(),
            None => None,
        };
        match rendered {
            Some(text) => Ok(text),
            None => Err(CookieCacheError::SerializationError { error: None }),
        }
    }

    /// Whether a text holds a cache.
    pub open spec fn text_readable(text: Seq<char>) -> bool {
        json_document(text) matches Some(doc) && cache_of_document(doc) is Some
    }

    /// The cache that a text holds. It fails with `SerializationError`
    /// exactly where the text is no JSON document that holds a cache.
    pub fn from_json_text(text: &str) -> (r: Result<CookieCache, CookieCacheError>)
        ensures
            match r {
                Ok(cache) => json_document(text@) matches Some(doc) && cache_of_document(doc)
                    == Some((cache.login_url@, cache.records())),
                Err(e) => e is SerializationError && !CookieCache::text_readable(text@),
            },
    {
        match Json::parse(text) {
            Ok(doc) => match CookieCache::from_json(&doc) {
                Some(cache) => Ok(cache),
                None => Err(CookieCacheError::SerializationError { error: None }),
            },
            Err(JsonError::Syntax { error }) => Err(
                CookieCacheError::SerializationError { error: Some(error) },
            ),
            Err(JsonError::Depth) => Err(CookieCacheError::SerializationError { error: None }),
        }
    }

    /// The cache that was found on disk: `DoesNotExist` where there was no
    /// file, `FileSystemError` where it could not be read,
    /// `SerializationError` where its text holds no cache.
    pub fn from_cached(file: CacheFile) -> (r: Result<CookieCache, CookieCacheError>)
        ensures
            match file {
                CacheFile::Missing => r matches Err(CookieCacheError::DoesNotExist),
                CacheFile::Unreadable => r matches Err(CookieCacheError::FileSystemError),
                CacheFile::Contents(text) => match r {
                    Ok(cache) => json_document(text@) matches Some(doc) && cache_of_document(doc)
                        == Some((cache.login_url@, cache.records())),
                    Err(e) => e is SerializationError && !CookieCache::text_readable(text@),
                },
            },
    {
        match file {
            CacheFile::Missing => Err(CookieCacheError::DoesNotExist),
            CacheFile::Unreadable => Err(CookieCacheError::FileSystemError),
            CacheFile::Contents(text) => CookieCache::from_json_text(text.as_str()),
        }
    }
}

/// The expiry that a document holds under `expires`.
fn read_expiry(doc: &Json) -> (r: Option<Option<i64>>)
    ensures
        r == expiry_of_document(doc@),
{
    match doc.member("expires") {
        None => Some(None),
        Some(Json::Null) => Some(None),
        Some(Json::Text(text)) => match timestamp::from_text(text.as_str()) {
            Some(at) => Some(Some(at)),
            None => None,
        },
        Some(_) => None,
    }
}

/// The cookie that a document holds.
fn read_cookie(doc: &Json) -> (r: Option<SimpleCookie>)
    ensures
        match r {
            Some(cookie) => cookie_of_document(doc@) == Some(cookie@),
            None => cookie_of_document(doc@) is None,
        },
{
    let name = text_field(doc, "name")?;
    let value = text_field(doc, "value")?;
    let expires = read_expiry(doc)?;
    let header = text_field(doc, "header")?;
    let origin = text_field(doc, "origin")?;
    Some(SimpleCookie { name, value, expires, header, origin })
}

} // verus!
