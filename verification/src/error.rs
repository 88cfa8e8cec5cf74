//! The errors the client reports, each with a message for the terminal.

use vstd::prelude::*;
use vstd::string::StringExecFns;

verus! {

/// Why a command could not be carried out.
///
/// None of these is retried or recovered from: the first one ends the run.
#[derive(Debug, Clone, PartialEq, Eq)]
pub enum HttpieError {
    /// The URL argument is not a well-formed absolute URL.
    InvalidUrl { input: String, reason: String },
    /// A body argument holds no `=`.
    InvalidKvPair { input: String },
    /// The request could not be sent or no response arrived.
    Transport { message: String },
    /// The response body could not be read.
    BodyRead { message: String },
    /// The `Content-Type` header of the response could not be understood.
    HeaderDecode { value: String },
    /// The response body could not be laid out as JSON.
    BodyFormat { message: String },
}

/// An [`HttpieError`] with its strings as sequences of characters.
pub enum ErrorView {
    InvalidUrl { input: Seq<char>, reason: Seq<char> },
    InvalidKvPair { input: Seq<char> },
    Transport { message: Seq<char> },
    BodyRead { message: Seq<char> },
    HeaderDecode { value: Seq<char> },
    BodyFormat { message: Seq<char> },
}

impl View for HttpieError {
    type V = ErrorView;

    open spec fn view(&self) -> ErrorView {
        match self {
            HttpieError::InvalidUrl { input, reason } => ErrorView::InvalidUrl {
                input: input@,
                reason: reason@,
            },
            HttpieError::InvalidKvPair { input } => ErrorView::InvalidKvPair { input: input@ },
            HttpieError::Transport { message } => ErrorView::Transport { message: message@ },
            HttpieError::BodyRead { message } => ErrorView::BodyRead { message: message@ },
            HttpieError::HeaderDecode { value } => ErrorView::HeaderDecode { value: value@ },
            HttpieError::BodyFormat { message } => ErrorView::BodyFormat { message: message@ },
        }
    }
}

impl ErrorView {
    /// The text shown to the user. A rejected argument is always quoted in it.
    pub open spec fn message(self) -> Seq<char> {
        match self {
            ErrorView::InvalidUrl { input, reason } => "Invalid URL "@ + input + ": "@ + reason,
            ErrorView::InvalidKvPair { input } => "Failed to parse "@ + input,
            ErrorView::Transport { message } => message,
            ErrorView::BodyRead { message } => message,
            ErrorView::HeaderDecode { value } => "Invalid Content-Type header: "@ + value,
            ErrorView::BodyFormat { message } => message,
        }
    }
}

impl HttpieError {
    /// The human-readable message of this error.
    pub fn message(&self) -> (text: String)
        ensures
            text@ == self@.message(),
    {
        match self {
            HttpieError::InvalidUrl { input, reason } => {
                let mut text = String::from_str("Invalid URL ");
                text.append(input.as_str());
                text.append(": ");
                text.append(reason.as_str());
                text
            },
            HttpieError::InvalidKvPair { input } => {
                let mut text = String::from_str("Failed to parse ");
                text.append(input.as_str());
                text
            },
            HttpieError::Transport { message } => message.clone(),
            HttpieError::BodyRead { message } => message.clone(),
            HttpieError::HeaderDecode { value } => {
                let mut text = String::from_str("Invalid Content-Type header: ");
                text.append(value.as_str());
                text
            },
            HttpieError::BodyFormat { message } => message.clone(),
        }
    }
}

/// The message of a rejected URL or key-value argument holds the argument as
/// it was typed, right after the opening words.
pub proof fn lemma_message_quotes_input(e: ErrorView)
    ensures
        e matches ErrorView::InvalidUrl { input, reason } ==> e.message().subrange(
            "Invalid URL "@.len() as int,
            "Invalid URL "@.len() + input.len() as int,
        ) == input,
        e matches ErrorView::InvalidKvPair { input } ==> e.message().subrange(
            "Failed to parse "@.len() as int,
            e.message().len() as int,
        ) == input,
{
}

} // verus!
