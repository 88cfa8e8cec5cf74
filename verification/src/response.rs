//! Responses: the status line, the headers, and the declared content type.

use vstd::prelude::*;
use vstd::std_specs::iter::IteratorSpec;
use vstd::string::{StrSliceExecFns, StringExecFns};

use crate::error::{ErrorView, HttpieError};
use crate::media::{mime_parse, MediaType, MediaTypeView};
use crate::request::Header;

verus! {

/// The protocol version a response came with.
#[derive(Debug, Clone, Copy, PartialEq, Eq, Structural)]
pub enum Version {
    Http09,
    Http10,
    Http11,
    H2,
    H3,
}

impl Version {
    /// The version as it stands in a status line.
    pub open spec fn text(self) -> Seq<char> {
        match self {
            Version::Http09 => "HTTP/0.9"@,
            Version::Http10 => "HTTP/1.0"@,
            Version::Http11 => "HTTP/1.1"@,
            Version::H2 => "HTTP/2.0"@,
            Version::H3 => "HTTP/3.0"@,
        }
    }

    /// The version as it stands in a status line.
    pub fn as_str(&self) -> (text: &'static str)
        ensures
            text@ == self.text(),
    {
        match self {
            Version::Http09 => "HTTP/0.9",
            Version::Http10 => "HTTP/1.0",
            Version::Http11 => "HTTP/1.1",
            Version::H2 => "HTTP/2.0",
            Version::H3 => "HTTP/3.0",
        }
    }
}

/// How `reqwest::StatusCode` displays the status of the given code: the code
/// and its reason phrase.
pub uninterp spec fn status_text(code: u16) -> Seq<char>;

/// Calls `reqwest::StatusCode::from_u16`, and `to_string` on what it gives.
///
/// Trusted: that a code is accepted exactly when it has three digits, and
/// that the text displayed depends on the code alone, so that it can go by
/// the name `status_text`.
#[verifier::external_body]
fn status_display(code: u16) -> (text: Option<String>)
    ensures
        text is Some <==> 100 <= code < 1000,
        text matches Some(t) ==> t@ == status_text(code),
{
    reqwest::StatusCode::from_u16(code).ok().map(|s| s.to_string())
}

/// A status code: a number of three digits.
#[derive(Debug, Clone, Copy, PartialEq, Eq)]
pub struct Status {
    code: u16,
}

impl View for Status {
    type V = u16;

    closed spec fn view(&self) -> u16 {
        self.code
    }
}

impl Status {
    #[verifier::type_invariant]
    spec fn three_digits(self) -> bool {
        100 <= self.code < 1000
    }

    /// The status of a code, where the code has three digits.
    pub fn new(code: u16) -> (status: Option<Status>)
        ensures
            status is Some <==> 100 <= code < 1000,
            status matches Some(s) ==> s@ == code,
    {
        if 100 <= code && code < 1000 {
            Some(Status { code })
        } else {
            None
        }
    }

    /// The code.
    pub fn code(&self) -> (code: u16)
        ensures
            code == self@,
            100 <= code < 1000,
    {
        proof {
            use_type_invariant(self);
        }
        self.code
    }

    /// The status as it stands in a status line: the code and its reason.
    pub fn text(&self) -> (text: String)
        ensures
            text@ == status_text(self@),
    {
        proof {
            use_type_invariant(self);
        }
        match status_display(self.code) {
            Some(text) => text,
            None => String::new(),
        }
    }
}

/// All of a response that comes before its body.
#[derive(Debug, Clone, PartialEq, Eq)]
pub struct ResponseHead {
    pub version: Version,
    pub status: Status,
    pub headers: Vec<Header>,
}

/// The status line: the version, a space, the status.
pub open spec fn status_line_text(version: Version, status: u16) -> Seq<char> {
    version.text() + seq![' '] + status_text(status)
}

/// One header line: the name, a colon and a space, the value as it came.
pub open spec fn header_line_text(header: (Seq<char>, Seq<char>)) -> Seq<char> {
    header.0 + seq![':', ' '] + header.1
}

impl ResponseHead {
    /// The status line of the response.
    pub fn status_line(&self) -> (line: String)
        ensures
            line@ == status_line_text(self.version, self.status@),
    {
        let mut line = String::from_str(self.version.as_str());
        line.append(" ");
        let status = self.status.text();
        line.append(status.as_str());
        proof {
            reveal_strlit(" ");
            assert(" "@ =~= seq![' ']);
        }
        line
    }
}

impl Header {
    /// The header as one line of text.
    pub fn line(&self) -> (line: String)
        ensures
            line@ == header_line_text(self@),
    {
        let mut line = self.name.clone();
        line.append(": ");
        line.append(self.value.as_str());
        proof {
            reveal_strlit(": ");
            assert(": "@ =~= seq![':', ' ']);
        }
        line
    }
}

/// A character with the upper-case letters of ASCII folded onto the lower-case
/// ones, as a number.
pub open spec fn folded(c: char) -> u32 {
    if 'A' <= c <= 'Z' {
        (c as u32 + 32) as u32
    } else {
        c as u32
    }
}

/// Two header names are the same name: they differ in the case of ASCII
/// letters at most.
pub open spec fn same_name(a: Seq<char>, b: Seq<char>) -> bool {
    &&& a.len() == b.len()
    &&& forall|i: int| 0 <= i < a.len() ==> folded(a[i]) == folded(b[i])
}

/// Folds a character as `folded` says.
fn fold(c: char) -> (n: u32)
    ensures
        n == folded(c),
{
    if 'A' <= c && c <= 'Z' {
        c as u32 + 32
    } else {
        c as u32
    }
}

/// Whether two header names are the same name.
pub fn is_same_name(a: &str, b: &str) -> (same: bool)
    ensures
        same == same_name(a@, b@),
{
    broadcast use vstd::string::group_string_axioms;

    let n = a.unicode_len();
    if n != b.unicode_len() {
        return false;
    }
    let mut rest_a = a.chars();
    let mut rest_b = b.chars();
    let mut i: usize = 0;
    loop
        invariant
            n == a@.len(),
            n == b@.len(),
            0 <= i <= n,
            rest_a.remaining() == a@.skip(i as int),
            rest_b.remaining() == b@.skip(i as int),
            forall|j: int| 0 <= j < i ==> folded(a@[j]) == folded(b@[j]),
        decreases n - i,
    {
        match (rest_a.next(), rest_b.next()) {
            (Some(x), Some(y)) => {
                if fold(x) != fold(y) {
                    return false;
                }
                assert(a@.skip(i as int).drop_first() =~= a@.skip(i + 1));
                assert(b@.skip(i as int).drop_first() =~= b@.skip(i + 1));
                i += 1;
            },
            _ => {
                return true;
            },
        }
    }
}

/// `i` is the place of the first header of the given name.
pub open spec fn is_first_named(
    headers: Seq<(Seq<char>, Seq<char>)>,
    name: Seq<char>,
    i: int,
) -> bool {
    &&& 0 <= i < headers.len()
    &&& same_name(headers[i].0, name)
    &&& forall|j: int| 0 <= j < i ==> !same_name((#[trigger] headers[j]).0, name)
}

/// The value of the first header of the given name, if there is one.
pub open spec fn header_value(headers: Seq<(Seq<char>, Seq<char>)>, name: Seq<char>) -> Option<
    Seq<char>,
> {
    if exists|i: int| is_first_named(headers, name, i) {
        Some(headers[choose|i: int| is_first_named(headers, name, i)].1)
    } else {
        None
    }
}

/// There is one first header of a name at most, so `header_value` is settled
/// by any place that `is_first_named` accepts.
pub proof fn lemma_header_value_at(headers: Seq<(Seq<char>, Seq<char>)>, name: Seq<char>, i: int)
    requires
        is_first_named(headers, name, i),
    ensures
        header_value(headers, name) == Some(headers[i].1),
{
    let j = choose|j: int| is_first_named(headers, name, j);
    assert(j == i) by {
        if j < i {
            assert(!same_name(headers[j].0, name));
        } else if i < j {
            assert(!same_name(headers[i].0, name));
        }
    }
}

/// Looks a header up by its name, whatever the case of its letters: the place
/// of the first header of that name.
pub fn find_header(headers: &Vec<Header>, name: &str) -> (found: Option<usize>)
    ensures
        match found {
            Some(i) => is_first_named(headers.deep_view(), name@, i as int),
            None => header_value(headers.deep_view(), name@) is None,
        },
        found matches Some(i) ==> header_value(headers.deep_view(), name@) == Some(
            headers@[i as int].value@,
        ),
{
    let mut i: usize = 0;
    while i < headers.len()
        invariant
            0 <= i <= headers.len(),
            forall|j: int|
                0 <= j < i ==> !same_name((#[trigger] headers.deep_view()[j]).0, name@),
        decreases headers.len() - i,
    {
        if is_same_name(headers[i].name.as_str(), name) {
            proof {
                assert(headers.deep_view()[i as int] == headers@[i as int]@);
                lemma_header_value_at(headers.deep_view(), name@, i as int);
            }
            return Some(i);
        }
        proof {
            assert(headers.deep_view()[i as int] == headers@[i as int]@);
        }
        i += 1;
    }
    proof {
        assert forall|j: int| !is_first_named(headers.deep_view(), name@, j) by {}
    }
    None
}

/// A header value is text: each of its characters is a visible character of
/// ASCII, a space or a tab.
pub open spec fn is_header_text(value: Seq<char>) -> bool {
    forall|i: int| 0 <= i < value.len() ==> is_text_char(#[trigger] value[i])
}

/// A visible character of ASCII, a space or a tab.
pub open spec fn is_text_char(c: char) -> bool {
    c == '\t' || ' ' <= c <= '~'
}

/// Whether a header value is text.
pub fn check_header_text(value: &str) -> (text: bool)
    ensures
        text == is_header_text(value@),
{
    broadcast use vstd::string::group_string_axioms;

    let n = value.unicode_len();
    let mut rest = value.chars();
    let mut i: usize = 0;
    loop
        invariant
            n == value@.len(),
            0 <= i <= n,
            rest.remaining() == value@.skip(i as int),
            forall|j: int| 0 <= j < i ==> is_text_char(#[trigger] value@[j]),
        decreases n - i,
    {
        match rest.next() {
            None => {
                return true;
            },
            Some(c) => {
                if !(c == '\t' || (' ' <= c && c <= '~')) {
                    assert(!is_text_char(value@[i as int]));
                    return false;
                }
                assert(value@.skip(i as int).drop_first() =~= value@.skip(i + 1));
                i += 1;
            },
        }
    }
}

/// The media type that a `Content-Type` value declares: the value must be
/// text, and a media type that `mime` can read. A value that is not cannot be
/// decoded, and the error carries it.
pub open spec fn decoded_content_type(value: Seq<char>) -> Result<MediaTypeView, ErrorView> {
    match mime_parse(value) {
        Some(media) if is_header_text(value) => Ok(media),
        _ => Err(ErrorView::HeaderDecode { value }),
    }
}

/// The content type a response declares: none where it has no `Content-Type`
/// header, else what the first of them decodes to.
pub open spec fn content_type_of(headers: Seq<(Seq<char>, Seq<char>)>) -> Result<
    Option<MediaTypeView>,
    ErrorView,
> {
    match header_value(headers, "content-type"@) {
        None => Ok(None),
        Some(value) => match decoded_content_type(value) {
            Ok(media) => Ok(Some(media)),
            Err(e) => Err(e),
        },
    }
}

/// What a `Content-Type` value declares, from what the reader of media types
/// made of the value: the media type it read, or an error that carries the
/// value where it read none.
pub fn content_type_from(value: &str, parsed: Option<MediaType>) -> (r: Result<
    MediaType,
    HttpieError,
>)
    ensures
        match parsed {
            Some(media) => r matches Ok(m) && m@ == media@,
            None => r matches Err(e) && e@ == (ErrorView::HeaderDecode { value: value@ }),
        },
{
    match parsed {
        Some(media) => Ok(media),
        None => Err(HttpieError::HeaderDecode { value: value.to_owned() }),
    }
}

/// The content type that the headers of a response declare.
///
/// Headers are looked up by name without regard to case, and the first
/// `Content-Type` counts. A response without one declares nothing. One whose
/// value cannot be decoded is an error.
pub fn get_content_type(headers: &Vec<Header>) -> (r: Result<Option<MediaType>, HttpieError>)
    ensures
        match content_type_of(headers.deep_view()) {
            Ok(declared) => r matches Ok(media) && media.deep_view() == declared,
            Err(error) => r matches Err(e) && e@ == error,
        },
{
    match find_header(headers, "content-type") {
        None => Ok(None),
        Some(i) => {
            let value = headers[i].value.as_str();
            if !check_header_text(value) {
                return Err(HttpieError::HeaderDecode { value: value.to_owned() });
            }
            match content_type_from(value, MediaType::parse(value)) {
                Ok(media) => Ok(Some(media)),
                Err(e) => Err(e),
            }
        },
    }
}

} // verus!
