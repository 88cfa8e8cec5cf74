//! Request URLs: which strings the client accepts as the address of a request.

use vstd::prelude::*;

use crate::error::{ErrorView, HttpieError};

verus! {

/// What `Url::parse` of the `url` crate (re-exported by `reqwest`) says of a
/// string: `None` where it accepts it as an absolute URL, else the parser's
/// description of what is wrong with it.
pub uninterp spec fn url_rejection(input: Seq<char>) -> Option<Seq<char>>;

/// The string parses as a well-formed absolute URL.
pub open spec fn is_absolute_url(input: Seq<char>) -> bool {
    url_rejection(input) is None
}

/// Calls `reqwest::Url::parse` on the string and keeps only the verdict.
///
/// Trusted: that the parser's verdict depends on the characters of the string
/// alone, so that it can go by the name `url_rejection`. An accepted string
/// gives `None`; a refused one gives the text of the parser's error.
#[verifier::external_body]
fn url_parse(input: &str) -> (rejection: Option<String>)
    ensures
        match rejection {
            None => url_rejection(input@) is None,
            Some(reason) => url_rejection(input@) == Some(reason@),
        },
{
    reqwest::Url::parse(input).err().map(|e| e.to_string())
}

/// Turns the parser's verdict on `input` into the validator's answer: the
/// string itself where the parser had nothing against it, else an
/// `InvalidUrl` error that carries the string and the parser's reason.
pub fn checked_url(input: &str, rejection: Option<String>) -> (r: Result<String, HttpieError>)
    ensures
        match rejection {
            None => r matches Ok(url) && url@ == input@,
            Some(reason) => r matches Err(e) && e@ == (ErrorView::InvalidUrl {
                input: input@,
                reason: reason@,
            }),
        },
{
    match rejection {
        None => Ok(input.to_owned()),
        Some(reason) => Err(HttpieError::InvalidUrl { input: input.to_owned(), reason }),
    }
}

/// Checks that a string is a well-formed absolute URL.
///
/// An accepted string is handed back unchanged. Nothing is sent anywhere: the
/// string is only parsed.
pub fn parse_url(s: &str) -> (r: Result<String, HttpieError>)
    ensures
        r is Ok <==> is_absolute_url(s@),
        r matches Ok(url) ==> url@ == s@,
        r matches Err(e) ==> (url_rejection(s@) matches Some(reason) && e@ == (
        ErrorView::InvalidUrl { input: s@, reason })),
{
    checked_url(s, url_parse(s))
}

} // verus!
