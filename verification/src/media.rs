//! Media types: what a `Content-Type` header declares, and which of the
//! body layouts the client has for it.

use vstd::prelude::*;
use vstd::string::StringExecFns;

verus! {

/// A media type as the `mime` crate reads it from a header value: the type,
/// the subtype, the suffix after a `+` if there is one, and the parameters in
/// their order. Names are in lower case.
#[derive(Debug, Clone, PartialEq, Eq)]
pub struct MediaType {
    pub type_: String,
    pub subtype: String,
    pub suffix: Option<String>,
    pub params: Vec<(String, String)>,
}

/// A [`MediaType`] with its strings as sequences of characters.
pub struct MediaTypeView {
    pub type_: Seq<char>,
    pub subtype: Seq<char>,
    pub suffix: Option<Seq<char>>,
    pub params: Seq<(Seq<char>, Seq<char>)>,
}

impl View for MediaType {
    type V = MediaTypeView;

    open spec fn view(&self) -> MediaTypeView {
        MediaTypeView {
            type_: self.type_@,
            subtype: self.subtype@,
            suffix: self.suffix.deep_view(),
            params: self.params.deep_view(),
        }
    }
}

/// The ways the client lays out a body.
#[derive(Debug, Clone, Copy, PartialEq, Eq, Structural)]
pub enum BodyKind {
    /// Reformatted with indentation, then shown as JSON.
    Json,
    /// Shown as HTML, text unchanged.
    Html,
    /// Shown as it came.
    Raw,
}

impl MediaTypeView {
    /// This is the bare media type `type_/subtype`: no suffix, no parameter.
    pub open spec fn is_bare(self, type_: Seq<char>, subtype: Seq<char>) -> bool {
        &&& self.type_ == type_
        &&& self.subtype == subtype
        &&& self.suffix is None
        &&& self.params.len() == 0
    }

    /// The layout for a body of this media type: `application/json` and
    /// `text/html` have their own, each only in its bare form; every other
    /// media type is shown raw.
    pub open spec fn kind(self) -> BodyKind {
        if self.is_bare("application"@, "json"@) {
            BodyKind::Json
        } else if self.is_bare("text"@, "html"@) {
            BodyKind::Html
        } else {
            BodyKind::Raw
        }
    }
}

/// What `mime::Mime::from_str` makes of a header value: `None` where it
/// refuses the value, else the parts of the media type, each as the accessor
/// of `Mime` of that name gives it.
pub uninterp spec fn mime_parse(value: Seq<char>) -> Option<MediaTypeView>;

/// Calls `mime::Mime::from_str` on a header value and copies the parts of the
/// result: `type_`, `subtype`, `suffix` and `params`.
///
/// Trusted: that the outcome depends on the characters of the value alone, so
/// that it can go by the name `mime_parse`.
#[verifier::external_body]
fn parse_mime(value: &str) -> (parsed: Option<MediaType>)
    ensures
        match parsed {
            None => mime_parse(value@) is None,
            Some(media) => mime_parse(value@) == Some(media@),
        },
{
    value.parse::<mime::Mime>().ok().map(|m| MediaType {
        type_: m.type_().as_str().to_string(),
        subtype: m.subtype().as_str().to_string(),
        suffix: m.suffix().map(|s| s.as_str().to_string()),
        params: m.params().map(|(n, v)| (n.as_str().to_string(), v.as_str().to_string())).collect(),
    })
}

/// Whether a string is the given text.
fn text_is(s: &String, text: &str) -> (same: bool)
    ensures
        same == (s@ == text@),
{
    let other = String::from_str(text);
    *s == other
}

impl MediaType {
    /// Reads a media type from a header value.
    pub fn parse(value: &str) -> (parsed: Option<MediaType>)
        ensures
            parsed.deep_view() == mime_parse(value@),
    {
        parse_mime(value)
    }

    /// This is the bare media type `type_/subtype`.
    pub fn is_bare(&self, type_: &str, subtype: &str) -> (bare: bool)
        ensures
            bare == self@.is_bare(type_@, subtype@),
    {
        text_is(&self.type_, type_) && text_is(&self.subtype, subtype) && self.suffix.is_none()
            && self.params.len() == 0
    }

    /// The layout for a body of this media type.
    pub fn kind(&self) -> (kind: BodyKind)
        ensures
            kind == self@.kind(),
    {
        if self.is_bare("application", "json") {
            BodyKind::Json
        } else if self.is_bare("text", "html") {
            BodyKind::Html
        } else {
            BodyKind::Raw
        }
    }
}

impl DeepView for MediaType {
    type V = MediaTypeView;

    open spec fn deep_view(&self) -> MediaTypeView {
        self@
    }
}

/// The layout for a body whose media type may be missing: without a declared
/// type the body is shown raw.
pub open spec fn kind_of(content_type: Option<MediaTypeView>) -> BodyKind {
    match content_type {
        Some(media) => media.kind(),
        None => BodyKind::Raw,
    }
}

/// The layout for a body, by the media type the response declares for it.
pub fn body_kind(content_type: &Option<MediaType>) -> (kind: BodyKind)
    ensures
        kind == kind_of(content_type.deep_view()),
{
    match content_type {
        Some(media) => media.kind(),
        None => BodyKind::Raw,
    }
}

} // verus!
