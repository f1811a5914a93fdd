//! Web addresses, parsed by the `url` crate.

use vstd::prelude::*;

use crate::accumulator::pairs_view;

verus! {

/// The error with which the `url` crate rejects an input.
#[verifier::external_type_specification]
#[verifier::external_body]
pub struct ExUrlParseError(url::ParseError);

/// The text in which the `url` crate writes the URL that it reads from an
/// input, or `None` for an input that it rejects.
pub uninterp spec fn url_text(input: Seq<char>) -> Option<Seq<char>>;

/// The name/value pairs that the `url` crate finds in the query of the URL
/// that it reads from an input, in their order.
pub uninterp spec fn url_query(input: Seq<char>) -> Seq<(Seq<char>, Seq<char>)>;

/// A URL: its text as the `url` crate writes it, and the pairs of its query.
#[derive(Debug, PartialEq, Eq)]
pub struct Address {
    text: String,
    query: Vec<(String, String)>,
}

/// `Url::parse` of the `url` crate, with the URL taken apart by `Into<String>`
/// and `Url::query_pairs`. An input is rejected exactly where `url_text` has
/// no value for it; else the address holds the URL's text and its query
/// pairs, which depend on the input alone.
#[verifier::external_body]
fn parse_url(input: &str) -> (r: Result<Address, url::ParseError>)
    ensures
        match r {
            Ok(address) => url_text(input@) == Some(address.text@) && url_query(input@)
                == pairs_view(address.query@),
            Err(_) => url_text(input@) is None,
        },
{
    let url = url::Url::parse(input)?;
    let query = url.query_pairs().into_owned().collect();
    Ok(Address { text: url.into(), query })
}

impl Address {
    /// The text of the URL.
    pub closed spec fn text(&self) -> Seq<char> {
        self.text@
    }

    /// The name/value pairs of the URL's query, in their order.
    pub closed spec fn query(&self) -> Seq<(Seq<char>, Seq<char>)> {
        pairs_view(self.query@)
    }

    /// Whether the address is what the input parses to.
    pub open spec fn parsed_from(&self, input: Seq<char>) -> bool {
        url_text(input) == Some(self.text()) && url_query(input) == self.query()
    }

    /// Reads a URL. The error is that of the `url` crate.
    pub fn parse(input: &str) -> (r: Result<Address, url::ParseError>)
        ensures
            match r {
                Ok(address) => address.parsed_from(input@),
                Err(_) => url_text(input@) is None,
            },
    {
        parse_url(input)
    }

    /// The text of the URL.
    pub fn as_str(&self) -> (s: &str)
        ensures
            s@ == self.text(),
    {
        self.text.as_str()
    }

    /// The name/value pairs of the URL's query, in their order.
    pub fn query_pairs(&self) -> (pairs: &Vec<(String, String)>)
        ensures
            pairs_view(pairs@) == self.query(),
    {
        &self.query
    }
}

} // verus!
