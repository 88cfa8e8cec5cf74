//! Requests: what a `get` or a `post` puts on the wire.

use vstd::prelude::*;
use vstd::string::StringExecFns;

use crate::json::{field_literals, json_object, object_text};
use crate::kv::KvPair;

verus! {

/// The request methods the client knows.
#[derive(Debug, Clone, Copy, PartialEq, Eq, Structural)]
pub enum Method {
    Get,
    Post,
}

/// One header line: a name and a value.
#[derive(Debug, Clone, PartialEq, Eq)]
pub struct Header {
    pub name: String,
    pub value: String,
}

impl View for Header {
    type V = (Seq<char>, Seq<char>);

    open spec fn view(&self) -> (Seq<char>, Seq<char>) {
        (self.name@, self.value@)
    }
}

impl DeepView for Header {
    type V = (Seq<char>, Seq<char>);

    open spec fn deep_view(&self) -> (Seq<char>, Seq<char>) {
        self@
    }
}

impl Header {
    /// A header of the given name and value.
    pub fn new(name: &str, value: &str) -> (header: Header)
        ensures
            header@ == (name@, value@),
    {
        Header { name: name.to_owned(), value: value.to_owned() }
    }
}

/// What every request of one run has in common: the headers that go with
/// each of them. It is made once and never changed.
#[derive(Debug, Clone, PartialEq, Eq)]
pub struct ClientConfig {
    pub default_headers: Vec<Header>,
}

/// The two headers every request carries: one that marks the client, and its
/// user agent.
pub open spec fn default_headers() -> Seq<(Seq<char>, Seq<char>)> {
    seq![("X-POWERED-BY"@, "Rust"@), ("user-agent"@, "Rust Httpie"@)]
}

/// The header that announces a JSON body.
pub open spec fn json_content_type() -> (Seq<char>, Seq<char>) {
    ("content-type"@, "application/json"@)
}

impl ClientConfig {
    /// The client's configuration, with its two default headers.
    pub fn new() -> (config: ClientConfig)
        ensures
            config.default_headers.deep_view() == default_headers(),
    {
        let mut headers: Vec<Header> = Vec::new();
        headers.push(Header::new("X-POWERED-BY", "Rust"));
        headers.push(Header::new("user-agent", "Rust Httpie"));
        proof {
            assert(headers.deep_view() =~= default_headers());
        }
        ClientConfig { default_headers: headers }
    }
}

/// A request, ready to be sent.
#[derive(Debug, Clone, PartialEq, Eq)]
pub struct Request {
    pub method: Method,
    pub url: String,
    pub headers: Vec<Header>,
    pub body: Option<String>,
}

/// A [`Request`] with its strings as sequences of characters.
pub struct RequestView {
    pub method: Method,
    pub url: Seq<char>,
    pub headers: Seq<(Seq<char>, Seq<char>)>,
    pub body: Option<Seq<char>>,
}

impl View for Request {
    type V = RequestView;

    open spec fn view(&self) -> RequestView {
        RequestView {
            method: self.method,
            url: self.url@,
            headers: self.headers.deep_view(),
            body: self.body.deep_view(),
        }
    }
}

/// The mapping that pairs build when each is inserted in turn: of two pairs
/// with one key the later one stays.
pub open spec fn field_map(pairs: Seq<(Seq<char>, Seq<char>)>) -> Map<Seq<char>, Seq<char>>
    decreases pairs.len(),
{
    if pairs.len() == 0 {
        Map::empty()
    } else {
        field_map(pairs.drop_last()).insert(pairs.last().0, pairs.last().1)
    }
}

/// The keys of the pairs, each once, in the order in which they first occur.
pub open spec fn field_keys(pairs: Seq<(Seq<char>, Seq<char>)>) -> Seq<Seq<char>>
    decreases pairs.len(),
{
    if pairs.len() == 0 {
        Seq::empty()
    } else {
        let before = field_keys(pairs.drop_last());
        if before.contains(pairs.last().0) {
            before
        } else {
            before.push(pairs.last().0)
        }
    }
}

/// The fields of the body that pairs stand for: one for each key, where the
/// key first occurs, with the value that the key was given last.
pub open spec fn fields_of(pairs: Seq<(Seq<char>, Seq<char>)>) -> Seq<(Seq<char>, Seq<char>)> {
    let map = field_map(pairs);
    field_keys(pairs).map_values(|k: Seq<char>| (k, map[k]))
}

/// A key is among `field_keys` once, and exactly when some pair has it, which
/// is when `field_map` has it.
pub proof fn lemma_field_keys(pairs: Seq<(Seq<char>, Seq<char>)>)
    ensures
        field_keys(pairs).no_duplicates(),
        forall|k: Seq<char>| #[trigger]
            field_keys(pairs).contains(k) <==> field_map(pairs).contains_key(k),
        forall|k: Seq<char>| #[trigger]
            field_map(pairs).contains_key(k) <==> exists|i: int|
                0 <= i < pairs.len() && (#[trigger] pairs[i]).0 == k,
    decreases pairs.len(),
{
    if pairs.len() > 0 {
        let init = pairs.drop_last();
        let last = pairs.last();
        lemma_field_keys(init);
        assert forall|k: Seq<char>| #[trigger]
            field_map(pairs).contains_key(k) <==> exists|i: int|
                0 <= i < pairs.len() && (#[trigger] pairs[i]).0 == k by {
            let in_init = field_map(init).contains_key(k);
            if field_map(pairs).contains_key(k) {
                if k == last.0 {
                    assert(pairs[pairs.len() - 1].0 == k);
                } else {
                    assert(in_init);
                    let i = choose|i: int| 0 <= i < init.len() && (#[trigger] init[i]).0 == k;
                    assert(pairs[i].0 == k);
                }
            }
            if exists|i: int| 0 <= i < pairs.len() && (#[trigger] pairs[i]).0 == k {
                let i = choose|i: int| 0 <= i < pairs.len() && (#[trigger] pairs[i]).0 == k;
                if i < init.len() {
                    assert(init[i].0 == k);
                    assert(in_init);
                } else {
                    assert(k == last.0);
                }
            }
        }
        assert forall|k: Seq<char>| #[trigger]
            field_keys(pairs).contains(k) <==> field_map(pairs).contains_key(k) by {
            let before = field_keys(init);
            if !before.contains(last.0) {
                assert(before.push(last.0).last() == last.0);
                assert forall|j: int| 0 <= j < before.len() implies before.push(last.0)[j]
                    == before[j] by {}
                if before.contains(k) {
                    let j = choose|j: int| 0 <= j < before.len() && before[j] == k;
                    assert(before.push(last.0)[j] == k);
                }
            }
        }
    }
}

/// Last write wins: a pair whose key no later pair has gives that key its
/// value in `field_map`.
pub proof fn lemma_last_write_wins(pairs: Seq<(Seq<char>, Seq<char>)>, i: int)
    requires
        0 <= i < pairs.len(),
        forall|j: int| i < j < pairs.len() ==> (#[trigger] pairs[j]).0 != pairs[i].0,
    ensures
        field_map(pairs).contains_key(pairs[i].0),
        field_map(pairs)[pairs[i].0] == pairs[i].1,
    decreases pairs.len(),
{
    if i < pairs.len() - 1 {
        assert(pairs[pairs.len() - 1].0 != pairs[i].0);
        lemma_last_write_wins(pairs.drop_last(), i);
    }
}

/// The fields of a body have distinct keys and build the same mapping as the
/// pairs they come from.
pub proof fn lemma_fields_keep_map(pairs: Seq<(Seq<char>, Seq<char>)>)
    ensures
        fields_of(pairs).map_values(|f: (Seq<char>, Seq<char>)| f.0) == field_keys(pairs),
        field_keys(pairs).no_duplicates(),
        field_map(fields_of(pairs)) == field_map(pairs),
{
    let fields = fields_of(pairs);
    lemma_field_keys(pairs);
    lemma_field_keys(fields);
    assert(fields.map_values(|f: (Seq<char>, Seq<char>)| f.0) =~= field_keys(pairs));
    assert forall|k: Seq<char>| #[trigger]
        field_map(fields).contains_key(k) <==> field_map(pairs).contains_key(k) by {
        if field_map(fields).contains_key(k) {
            let i = choose|i: int| 0 <= i < fields.len() && (#[trigger] fields[i]).0 == k;
            assert(field_keys(pairs)[i] == k);
            assert(field_keys(pairs).contains(k));
        }
        if field_map(pairs).contains_key(k) {
            assert(field_keys(pairs).contains(k));
            let i = choose|i: int| 0 <= i < field_keys(pairs).len() && field_keys(pairs)[i] == k;
            assert(fields[i].0 == k);
        }
    }
    assert forall|k: Seq<char>| field_map(fields).contains_key(k) implies field_map(fields)[k]
        == field_map(pairs)[k] by {
        let i = choose|i: int| 0 <= i < fields.len() && (#[trigger] fields[i]).0 == k;
        assert forall|j: int| i < j < fields.len() implies (#[trigger] fields[j]).0
            != fields[i].0 by {
            assert(field_keys(pairs)[j] != field_keys(pairs)[i]);
        }
        lemma_last_write_wins(fields, i);
    }
    assert(field_map(fields) =~= field_map(pairs));
}

/// How `fields_of` grows by one pair: a new key adds a field at the end, a
/// known key has its field's value replaced.
proof fn lemma_fields_push(pairs: Seq<(Seq<char>, Seq<char>)>, x: (Seq<char>, Seq<char>))
    ensures
        !field_keys(pairs).contains(x.0) ==> fields_of(pairs.push(x)) == fields_of(pairs).push(x),
        forall|j: int|
            0 <= j < field_keys(pairs).len() && field_keys(pairs)[j] == x.0 ==> fields_of(
                pairs.push(x),
            ) == #[trigger] fields_of(pairs).update(j, x),
{
    let more = pairs.push(x);
    assert(more.drop_last() =~= pairs);
    assert(more.last() == x);
    lemma_field_keys(pairs);
    let keys = field_keys(pairs);
    if !keys.contains(x.0) {
        assert forall|i: int| 0 <= i < keys.len() implies keys[i] != x.0 by {}
        assert(fields_of(more) =~= fields_of(pairs).push(x));
    }
    assert forall|j: int| 0 <= j < keys.len() && keys[j] == x.0 implies fields_of(more)
        == #[trigger] fields_of(pairs).update(j, x) by {
        assert(keys.contains(x.0));
        assert forall|i: int| 0 <= i < keys.len() && i != j implies keys[i] != x.0 by {}
        assert(fields_of(more) =~= fields_of(pairs).update(j, x));
    }
}

/// Where a key stands among some fields, if it does.
fn position(fields: &Vec<KvPair>, key: &String) -> (found: Option<usize>)
    ensures
        match found {
            Some(j) => j < fields.len() && fields@[j as int].k@ == key@,
            None => forall|j: int| 0 <= j < fields.len() ==> fields@[j].k@ != key@,
        },
{
    let mut j: usize = 0;
    while j < fields.len()
        invariant
            0 <= j <= fields.len(),
            forall|l: int| 0 <= l < j ==> fields@[l].k@ != key@,
        decreases fields.len() - j,
    {
        if fields[j].k == *key {
            return Some(j);
        }
        j += 1;
    }
    None
}

/// Collapses pairs into the fields of a body: pairs with one key become one
/// field, which stands where the key first occurs and has the value that the
/// key was given last.
pub fn body_fields(pairs: &Vec<KvPair>) -> (fields: Vec<KvPair>)
    ensures
        fields.deep_view() == fields_of(pairs.deep_view()),
{
    let ghost all = pairs.deep_view();
    let mut fields: Vec<KvPair> = Vec::new();
    let mut i: usize = 0;
    proof {
        assert(fields.deep_view() =~= fields_of(all.take(0)));
    }
    while i < pairs.len()
        invariant
            all == pairs.deep_view(),
            0 <= i <= pairs.len(),
            fields.deep_view() == fields_of(all.take(i as int)),
        decreases pairs.len() - i,
    {
        let ghost done = all.take(i as int);
        let ghost before = fields.deep_view();
        let pair = &pairs[i];
        let field = KvPair { k: pair.k.clone(), v: pair.v.clone() };
        proof {
            assert(all.take(i + 1) =~= done.push(all[i as int]));
            assert(field@ == all[i as int]);
            lemma_fields_push(done, field@);
            assert(field_keys(done) =~= before.map_values(|f: (Seq<char>, Seq<char>)| f.0));
        }
        match position(&fields, &pair.k) {
            Some(j) => {
                fields.set(j, field);
                proof {
                    assert(field_keys(done)[j as int] == before[j as int].0);
                    assert(fields.deep_view() =~= before.update(j as int, all[i as int]));
                }
            },
            None => {
                fields.push(field);
                proof {
                    assert forall|l: int| 0 <= l < field_keys(done).len() implies field_keys(
                        done,
                    )[l] != all[i as int].0 by {
                        assert(field_keys(done)[l] == before[l].0);
                    }
                    assert(fields.deep_view() =~= before.push(all[i as int]));
                }
            },
        }
        i += 1;
    }
    proof {
        assert(all.take(pairs.len() as int) =~= all);
    }
    fields
}

/// A copy of some headers.
pub fn copy_headers(headers: &Vec<Header>) -> (copy: Vec<Header>)
    ensures
        copy.deep_view() == headers.deep_view(),
{
    let mut copy: Vec<Header> = Vec::new();
    let mut i: usize = 0;
    while i < headers.len()
        invariant
            0 <= i <= headers.len(),
            copy.deep_view() == headers.deep_view().take(i as int),
        decreases headers.len() - i,
    {
        let ghost before = copy.deep_view();
        copy.push(Header { name: headers[i].name.clone(), value: headers[i].value.clone() });
        proof {
            assert(copy.deep_view() =~= before.push(headers.deep_view()[i as int]));
            assert(headers.deep_view().take(i + 1) =~= before.push(headers.deep_view()[i as int]));
        }
        i += 1;
    }
    proof {
        assert(headers.deep_view().take(headers.len() as int) =~= headers.deep_view());
    }
    copy
}

/// The request of `get`: the URL, the client's default headers, no body.
pub open spec fn get_request(defaults: Seq<(Seq<char>, Seq<char>)>, url: Seq<char>) -> RequestView {
    RequestView { method: Method::Get, url, headers: defaults, body: None }
}

/// The request of `post`: the URL, the client's default headers and the one
/// that announces JSON, and as body one JSON object with a string member for
/// each field of the pairs.
pub open spec fn post_request(
    defaults: Seq<(Seq<char>, Seq<char>)>,
    url: Seq<char>,
    pairs: Seq<(Seq<char>, Seq<char>)>,
) -> RequestView {
    RequestView {
        method: Method::Post,
        url,
        headers: defaults.push(json_content_type()),
        body: Some(object_text(field_literals(fields_of(pairs)))),
    }
}

/// Makes the request of `get` for a URL.
pub fn get(config: &ClientConfig, url: &str) -> (request: Request)
    ensures
        request@ == get_request(config.default_headers.deep_view(), url@),
{
    Request {
        method: Method::Get,
        url: url.to_owned(),
        headers: copy_headers(&config.default_headers),
        body: None,
    }
}

/// Makes the request of `post` for a URL and key-value pairs. Where a key
/// occurs more than once, its last value is the one sent.
pub fn post(config: &ClientConfig, url: &str, pairs: &Vec<KvPair>) -> (request: Request)
    ensures
        request@ == post_request(config.default_headers.deep_view(), url@, pairs.deep_view()),
{
    let fields = body_fields(pairs);
    let body = json_object(&fields);
    let mut headers = copy_headers(&config.default_headers);
    let ghost before = headers.deep_view();
    headers.push(Header::new("content-type", "application/json"));
    proof {
        assert(headers.deep_view() =~= before.push(json_content_type()));
    }
    Request { method: Method::Post, url: url.to_owned(), headers, body: Some(body) }
}

} // verus!
