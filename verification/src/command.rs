//! Commands: what the user asks for, once the arguments have been checked.

use vstd::prelude::*;

use crate::error::{ErrorView, HttpieError};
use crate::kv::{key_value, parse_kv_pair, KvPair};
use crate::request::{get, get_request, post, post_request, ClientConfig, Request, RequestView};
use crate::url::{is_absolute_url, parse_url, url_rejection};

verus! {

/// One run of the client: a `get` of a URL, or a `post` of key-value pairs to
/// a URL.
#[derive(Debug, Clone, PartialEq, Eq)]
pub enum Command {
    Get { url: String },
    Post { url: String, body: Vec<KvPair> },
}

/// A [`Command`] with its strings as sequences of characters.
pub enum CommandView {
    Get { url: Seq<char> },
    Post { url: Seq<char>, body: Seq<(Seq<char>, Seq<char>)> },
}

impl View for Command {
    type V = CommandView;

    open spec fn view(&self) -> CommandView {
        match self {
            Command::Get { url } => CommandView::Get { url: url@ },
            Command::Post { url, body } => CommandView::Post { url: url@, body: body.deep_view() },
        }
    }
}

impl CommandView {
    /// The URL the command is for.
    pub open spec fn url(self) -> Seq<char> {
        match self {
            CommandView::Get { url } => url,
            CommandView::Post { url, body } => url,
        }
    }

    /// The command is fit to be carried out: its URL is a well-formed
    /// absolute URL.
    pub open spec fn wf(self) -> bool {
        is_absolute_url(self.url())
    }

    /// The request that carries the command out.
    pub open spec fn request(self, defaults: Seq<(Seq<char>, Seq<char>)>) -> RequestView {
        match self {
            CommandView::Get { url } => get_request(defaults, url),
            CommandView::Post { url, body } => post_request(defaults, url, body),
        }
    }
}

/// The pairs of some tokens, in their order; or, where a token holds no `=`,
/// the error for the first such token.
pub open spec fn key_values(tokens: Seq<Seq<char>>) -> Result<
    Seq<(Seq<char>, Seq<char>)>,
    ErrorView,
>
    decreases tokens.len(),
{
    if tokens.len() == 0 {
        Ok(Seq::empty())
    } else {
        match key_values(tokens.drop_last()) {
            Err(e) => Err(e),
            Ok(pairs) => match key_value(tokens.last()) {
                Some(pair) => Ok(pairs.push(pair)),
                None => Err(ErrorView::InvalidKvPair { input: tokens.last() }),
            },
        }
    }
}

/// What checking a URL and then some tokens comes to: the error of the URL,
/// else the error of the first token without `=`, else the pairs.
pub open spec fn checked_post(url: Seq<char>, tokens: Seq<Seq<char>>) -> Result<
    CommandView,
    ErrorView,
> {
    match url_rejection(url) {
        Some(reason) => Err(ErrorView::InvalidUrl { input: url, reason }),
        None => match key_values(tokens) {
            Err(e) => Err(e),
            Ok(body) => Ok(CommandView::Post { url, body }),
        },
    }
}

/// Reads tokens as key-value pairs, one after the other, and stops at the
/// first that holds no `=`.
pub fn parse_kv_pairs(tokens: &Vec<String>) -> (r: Result<Vec<KvPair>, HttpieError>)
    ensures
        match key_values(tokens.deep_view()) {
            Ok(pairs) => r matches Ok(body) && body.deep_view() == pairs,
            Err(error) => r matches Err(e) && e@ == error,
        },
{
    let ghost all = tokens.deep_view();
    let mut pairs: Vec<KvPair> = Vec::new();
    let mut i: usize = 0;
    proof {
        assert(pairs.deep_view() =~= Seq::empty());
        assert(all.take(0).len() == 0);
    }
    while i < tokens.len()
        invariant
            all == tokens.deep_view(),
            0 <= i <= tokens.len(),
            key_values(all.take(i as int)) == Ok::<Seq<(Seq<char>, Seq<char>)>, ErrorView>(
                pairs.deep_view(),
            ),
        decreases tokens.len() - i,
    {
        let ghost before = pairs.deep_view();
        proof {
            assert(all.take(i + 1).drop_last() =~= all.take(i as int));
            assert(all.take(i + 1).last() == tokens@[i as int]@);
        }
        match parse_kv_pair(tokens[i].as_str()) {
            Ok(pair) => {
                pairs.push(pair);
                proof {
                    assert(pairs.deep_view() =~= before.push(pair@));
                }
            },
            Err(e) => {
                proof {
                    lemma_key_values_fail(all, i + 1);
                }
                return Err(e);
            },
        }
        i += 1;
    }
    proof {
        assert(all.take(tokens.len() as int) =~= all);
    }
    Ok(pairs)
}

/// Once the first tokens have failed, more tokens fail in the same way.
proof fn lemma_key_values_fail(tokens: Seq<Seq<char>>, n: int)
    requires
        0 <= n <= tokens.len(),
        key_values(tokens.take(n)) is Err,
    ensures
        key_values(tokens) == key_values(tokens.take(n)),
    decreases tokens.len(),
{
    if n < tokens.len() {
        assert(tokens.drop_last().take(n) =~= tokens.take(n));
        lemma_key_values_fail(tokens.drop_last(), n);
    } else {
        assert(tokens.take(n) =~= tokens);
    }
}

impl Command {
    /// The command `get <url>`, if the URL is a well-formed absolute URL.
    pub fn get(url: &str) -> (r: Result<Command, HttpieError>)
        ensures
            match url_rejection(url@) {
                None => r matches Ok(c) && c@ == (CommandView::Get { url: url@ }),
                Some(reason) => r matches Err(e) && e@ == (ErrorView::InvalidUrl {
                    input: url@,
                    reason,
                }),
            },
            r matches Ok(c) ==> c@.wf(),
    {
        match parse_url(url) {
            Ok(url) => Ok(Command::Get { url }),
            Err(e) => Err(e),
        }
    }

    /// The command `post <url> [key=value ...]`, if the URL is a well-formed
    /// absolute URL and each of the tokens holds a `=`. The URL is checked
    /// first, then the tokens in their order; the first failure is reported.
    pub fn post(url: &str, tokens: &Vec<String>) -> (r: Result<Command, HttpieError>)
        ensures
            match checked_post(url@, tokens.deep_view()) {
                Ok(command) => r matches Ok(c) && c@ == command,
                Err(error) => r matches Err(e) && e@ == error,
            },
            r matches Ok(c) ==> c@.wf(),
    {
        let url = match parse_url(url) {
            Ok(url) => url,
            Err(e) => { return Err(e); },
        };
        match parse_kv_pairs(tokens) {
            Ok(body) => Ok(Command::Post { url, body }),
            Err(e) => Err(e),
        }
    }

    /// The request that carries the command out.
    pub fn request(&self, config: &ClientConfig) -> (request: Request)
        ensures
            request@ == self@.request(config.default_headers.deep_view()),
            request@.url == self@.url(),
    {
        match self {
            Command::Get { url } => get(config, url.as_str()),
            Command::Post { url, body } => post(config, url.as_str(), body),
        }
    }
}

} // verus!
