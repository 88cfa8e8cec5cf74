//! A small HTTP command-line client, as a verified library.
//!
//! The library holds everything the client decides: how a command-line token
//! becomes a key-value pair, which strings are accepted as request URLs, what
//! request a command stands for, and how a response is laid out for display.
//! Sending the request and writing to the terminal are left to the caller.

pub mod command;
pub mod error;
pub mod json;
pub mod kv;
pub mod media;
pub mod render;
pub mod request;
pub mod response;
pub mod url;

pub use command::{parse_kv_pairs, Command};
pub use error::HttpieError;
pub use json::{json_object, object_from_literals};
pub use kv::{parse_kv_pair, KvPair};
pub use media::{body_kind, BodyKind, MediaType};
pub use render::{body_text, json_body_text, render_response, Rendered};
pub use request::{body_fields, get, post, ClientConfig, Header, Method, Request};
pub use response::{
    check_header_text, content_type_from, find_header, get_content_type, is_same_name,
    ResponseHead, Status, Version,
};
pub use url::{checked_url, parse_url};
