//! Rendering: the three parts of a response as they are shown, one after the
//! other: the status line, the headers, the body.

use vstd::prelude::*;
use vstd::string::StringExecFns;

use crate::error::{ErrorView, HttpieError};
use crate::media::{body_kind, kind_of, mime_parse, BodyKind, MediaTypeView};
use crate::request::{copy_headers, Header};
use crate::response::{
    content_type_of, get_content_type, header_line_text, header_value, is_header_text,
    status_line_text, ResponseHead,
};

verus! {

/// What `jsonxf::pretty_print` makes of a text: the text laid out with one
/// member or element to a line and two spaces of indentation for each level,
/// or the message with which it gave up.
pub uninterp spec fn pretty_json(text: Seq<char>) -> Result<Seq<char>, Seq<char>>;

/// Calls `jsonxf::pretty_print` on a text.
///
/// Trusted: that the outcome depends on the characters of the text alone, so
/// that it can go by the name `pretty_json`.
#[verifier::external_body]
fn pretty_print(text: &str) -> (pretty: Result<String, String>)
    ensures
        match pretty {
            Ok(laid_out) => pretty_json(text@) == Ok::<Seq<char>, Seq<char>>(laid_out@),
            Err(message) => pretty_json(text@) == Err::<Seq<char>, Seq<char>>(message@),
        },
{
    jsonxf::pretty_print(text)
}

/// The text shown for a body. A JSON body is shown reformatted; every other
/// body is shown as it came, character for character.
pub open spec fn shown_body(kind: BodyKind, body: Seq<char>) -> Result<Seq<char>, ErrorView> {
    match kind {
        BodyKind::Json => match pretty_json(body) {
            Ok(laid_out) => Ok(laid_out),
            Err(message) => Err(ErrorView::BodyFormat { message }),
        },
        _ => Ok(body),
    }
}

/// The text shown for a JSON body, from what the pretty-printer made of it:
/// its output, or a `BodyFormat` error with its message.
pub fn json_body_text(pretty: Result<String, String>) -> (r: Result<String, HttpieError>)
    ensures
        match pretty {
            Ok(laid_out) => r matches Ok(text) && text@ == laid_out@,
            Err(message) => r matches Err(e) && e@ == (ErrorView::BodyFormat {
                message: message@,
            }),
        },
{
    match pretty {
        Ok(laid_out) => Ok(laid_out),
        Err(message) => Err(HttpieError::BodyFormat { message }),
    }
}

/// The text shown for a body of the given kind.
///
/// Only a JSON body is changed, and only in its layout. An HTML body and a
/// raw one come back verbatim: colour is for the terminal and no part of the
/// text.
pub fn body_text(kind: BodyKind, body: &str) -> (r: Result<String, HttpieError>)
    ensures
        match shown_body(kind, body@) {
            Ok(shown) => r matches Ok(text) && text@ == shown,
            Err(error) => r matches Err(e) && e@ == error,
        },
        kind != BodyKind::Json ==> (r matches Ok(text) && text@ == body@),
{
    match kind {
        BodyKind::Json => json_body_text(pretty_print(body)),
        _ => Ok(body.to_owned()),
    }
}

/// A response as it is shown, part by part.
#[derive(Debug, Clone, PartialEq, Eq)]
pub struct Rendered {
    /// The status line.
    pub status: String,
    /// The headers, in the order in which the server sent them.
    pub headers: Vec<Header>,
    /// How the body is shown.
    pub kind: BodyKind,
    /// The text of the body as shown.
    pub body: String,
}

/// A [`Rendered`] with its strings as sequences of characters.
pub struct RenderedView {
    pub status: Seq<char>,
    pub headers: Seq<(Seq<char>, Seq<char>)>,
    pub kind: BodyKind,
    pub body: Seq<char>,
}

impl View for Rendered {
    type V = RenderedView;

    open spec fn view(&self) -> RenderedView {
        RenderedView {
            status: self.status@,
            headers: self.headers.deep_view(),
            kind: self.kind,
            body: self.body@,
        }
    }
}

/// The header lines, each ended by a line feed.
pub open spec fn header_lines_text(headers: Seq<(Seq<char>, Seq<char>)>) -> Seq<char>
    decreases headers.len(),
{
    if headers.len() == 0 {
        Seq::empty()
    } else {
        header_lines_text(headers.drop_last()) + header_line_text(headers.last()) + seq!['\n']
    }
}

impl RenderedView {
    /// The whole output without colour: the status line and an empty line,
    /// the header lines and an empty line, the body and a line feed.
    pub open spec fn plain_text(self) -> Seq<char> {
        self.status + seq!['\n', '\n'] + header_lines_text(self.headers) + seq!['\n'] + self.body
            + seq!['\n']
    }
}

/// What a response is rendered to: its status line, its headers unchanged,
/// and its body laid out by the content type that the headers declare. A
/// content type that cannot be decoded, or a JSON body that cannot be laid
/// out, is an error.
pub open spec fn rendered(
    status: Seq<char>,
    headers: Seq<(Seq<char>, Seq<char>)>,
    body: Seq<char>,
) -> Result<RenderedView, ErrorView> {
    match content_type_of(headers) {
        Err(error) => Err(error),
        Ok(declared) => match shown_body(kind_of(declared), body) {
            Err(error) => Err(error),
            Ok(shown) => Ok(
                RenderedView {
                    status,
                    headers,
                    kind: kind_of(declared),
                    body: shown,
                },
            ),
        },
    }
}

/// Only JSON is reformatted: a response whose content type decodes, and asks
/// for another layout than JSON, is rendered with its body character for
/// character.
pub proof fn lemma_verbatim_unless_json(
    status: Seq<char>,
    headers: Seq<(Seq<char>, Seq<char>)>,
    body: Seq<char>,
)
    ensures
        content_type_of(headers) matches Ok(declared) ==> (kind_of(declared) != BodyKind::Json
            ==> rendered(status, headers, body) == Ok::<RenderedView, ErrorView>(
            RenderedView { status, headers, kind: kind_of(declared), body },
        )),
        rendered(status, headers, body) matches Ok(shown) ==> (shown.kind != BodyKind::Json
            ==> shown.body == body),
{
}

/// A response that declares `application/json`, bare, is rendered as JSON,
/// with its body as the pretty-printer lays it out.
pub proof fn lemma_json_laid_out(
    status: Seq<char>,
    headers: Seq<(Seq<char>, Seq<char>)>,
    value: Seq<char>,
    media: MediaTypeView,
    body: Seq<char>,
    laid_out: Seq<char>,
)
    requires
        header_value(headers, "content-type"@) == Some(value),
        is_header_text(value),
        mime_parse(value) == Some(media),
        media.is_bare("application"@, "json"@),
        pretty_json(body) == Ok::<Seq<char>, Seq<char>>(laid_out),
    ensures
        rendered(status, headers, body) == Ok::<RenderedView, ErrorView>(
            RenderedView { status, headers, kind: BodyKind::Json, body: laid_out },
        ),
{
}

/// A response that declares `text/plain`, with parameters or without, is
/// rendered raw, with its body verbatim.
pub proof fn lemma_text_plain_verbatim(
    status: Seq<char>,
    headers: Seq<(Seq<char>, Seq<char>)>,
    value: Seq<char>,
    media: MediaTypeView,
    body: Seq<char>,
)
    requires
        header_value(headers, "content-type"@) == Some(value),
        is_header_text(value),
        mime_parse(value) == Some(media),
        media.type_ == "text"@,
        media.subtype == "plain"@,
    ensures
        rendered(status, headers, body) == Ok::<RenderedView, ErrorView>(
            RenderedView { status, headers, kind: BodyKind::Raw, body },
        ),
{
    reveal_strlit("text");
    reveal_strlit("plain");
    reveal_strlit("application");
    reveal_strlit("html");
    assert("text"@.len() != "application"@.len());
    assert("plain"@.len() != "html"@.len());
}

/// Renders a response whose body has been read.
pub fn render_response(head: &ResponseHead, body: &str) -> (r: Result<Rendered, HttpieError>)
    ensures
        match rendered(
            status_line_text(head.version, head.status@),
            head.headers.deep_view(),
            body@,
        ) {
            Ok(shown) => r matches Ok(out) && out@ == shown,
            Err(error) => r matches Err(e) && e@ == error,
        },
{
    let declared = match get_content_type(&head.headers) {
        Ok(declared) => declared,
        Err(e) => { return Err(e); },
    };
    let kind = body_kind(&declared);
    let text = match body_text(kind, body) {
        Ok(text) => text,
        Err(e) => { return Err(e); },
    };
    Ok(
        Rendered {
            status: head.status_line(),
            headers: copy_headers(&head.headers),
            kind,
            body: text,
        },
    )
}

impl Rendered {
    /// The whole output as plain text, as a terminal without colour shows it.
    pub fn plain_text(&self) -> (text: String)
        ensures
            text@ == self@.plain_text(),
    {
        let ghost all = self.headers.deep_view();
        let mut text = self.status.clone();
        text.append("\n\n");
        proof {
            reveal_strlit("\n\n");
            reveal_strlit("\n");
            assert("\n\n"@ =~= seq!['\n', '\n']);
            assert("\n"@ =~= seq!['\n']);
            assert(text@ =~= self.status@ + seq!['\n', '\n'] + header_lines_text(all.take(0)));
        }
        let mut i: usize = 0;
        while i < self.headers.len()
            invariant
                all == self.headers.deep_view(),
                0 <= i <= self.headers.len(),
                text@ == self.status@ + seq!['\n', '\n'] + header_lines_text(all.take(i as int)),
                "\n"@ == seq!['\n'],
            decreases self.headers.len() - i,
        {
            let line = self.headers[i].line();
            text.append(line.as_str());
            text.append("\n");
            proof {
                let upto = all.take(i + 1);
                assert(upto.drop_last() =~= all.take(i as int));
                assert(upto.last() == self.headers@[i as int]@);
                assert(text@ =~= self.status@ + seq!['\n', '\n'] + header_lines_text(upto));
            }
            i += 1;
        }
        proof {
            assert(all.take(self.headers.len() as int) =~= all);
        }
        text.append("\n");
        text.append(self.body.as_str());
        text.append("\n");
        text
    }
}

} // verus!
