use httpie::{
    body_fields, get, json_object, object_from_literals, post, ClientConfig, Command, Header,
    KvPair, Method,
};

fn pair(k: &str, v: &str) -> KvPair {
    KvPair { k: k.into(), v: v.into() }
}

fn header(name: &str, value: &str) -> Header {
    Header { name: name.into(), value: value.into() }
}

#[test]
fn client_config_has_the_two_default_headers() {
    let config = ClientConfig::new();
    assert_eq!(
        config.default_headers,
        vec![header("X-POWERED-BY", "Rust"), header("user-agent", "Rust Httpie")]
    );
}

#[test]
fn header_new_copies_name_and_value() {
    assert_eq!(Header::new("Accept", "*/*"), header("Accept", "*/*"));
}

#[test]
fn get_request_has_no_body() {
    let request = get(&ClientConfig::new(), "https://abc.xyz");
    assert_eq!(request.method, Method::Get);
    assert_eq!(request.url, "https://abc.xyz");
    assert_eq!(
        request.headers,
        vec![header("X-POWERED-BY", "Rust"), header("user-agent", "Rust Httpie")]
    );
    assert_eq!(request.body, None);
}

#[test]
fn post_serializes_pairs_as_json() {
    let pairs = vec![pair("a", "1"), pair("b", "2")];
    let request = post(&ClientConfig::new(), "https://abc.org/xyz", &pairs);
    assert_eq!(request.method, Method::Post);
    assert_eq!(request.url, "https://abc.org/xyz");
    assert_eq!(request.body, Some("{\"a\":\"1\",\"b\":\"2\"}".to_string()));
    assert_eq!(
        request.headers,
        vec![
            header("X-POWERED-BY", "Rust"),
            header("user-agent", "Rust Httpie"),
            header("content-type", "application/json"),
        ]
    );
}

#[test]
fn post_without_pairs_sends_an_empty_object() {
    let request = post(&ClientConfig::new(), "https://abc.org/xyz", &Vec::new());
    assert_eq!(request.body, Some("{}".to_string()));
}

#[test]
fn post_sends_the_last_value_of_a_repeated_key() {
    let pairs = vec![pair("a", "1"), pair("b", "2"), pair("a", "3"), pair("c", ""), pair("b", "4")];
    let request = post(&ClientConfig::new(), "https://abc.org/xyz", &pairs);
    assert_eq!(request.body, Some("{\"a\":\"3\",\"b\":\"4\",\"c\":\"\"}".to_string()));
}

#[test]
fn post_uses_the_headers_of_the_config() {
    let config = ClientConfig { default_headers: vec![header("x-one", "1")] };
    let request = post(&config, "https://abc.org/xyz", &vec![pair("a", "1")]);
    assert_eq!(
        request.headers,
        vec![header("x-one", "1"), header("content-type", "application/json")]
    );
    let request = get(&config, "https://abc.org/xyz");
    assert_eq!(request.headers, vec![header("x-one", "1")]);
}

#[test]
fn body_fields_keeps_first_place_and_last_value() {
    assert_eq!(body_fields(&Vec::new()), Vec::<KvPair>::new());
    assert_eq!(body_fields(&vec![pair("a", "1")]), vec![pair("a", "1")]);
    assert_eq!(
        body_fields(&vec![pair("a", "1"), pair("b", "2")]),
        vec![pair("a", "1"), pair("b", "2")]
    );
    assert_eq!(
        body_fields(&vec![pair("b", "1"), pair("a", "2"), pair("b", "3"), pair("b", "4")]),
        vec![pair("b", "4"), pair("a", "2")]
    );
    assert_eq!(
        body_fields(&vec![pair("", "x"), pair("", "y"), pair("A", "1"), pair("a", "2")]),
        vec![pair("", "y"), pair("A", "1"), pair("a", "2")]
    );
}

#[test]
fn json_object_escapes_keys_and_values() {
    assert_eq!(json_object(&Vec::new()), "{}");
    assert_eq!(json_object(&vec![pair("a", "1")]), "{\"a\":\"1\"}");
    assert_eq!(
        json_object(&vec![pair("say \"hi\"", "back\\slash"), pair("line", "one\ntwo\ttab")]),
        "{\"say \\\"hi\\\"\":\"back\\\\slash\",\"line\":\"one\\ntwo\\ttab\"}"
    );
    assert_eq!(
        json_object(&vec![pair("ctl", "\u{1}\u{1f}"), pair("é", "☕ /")]),
        "{\"ctl\":\"\\u0001\\u001f\",\"é\":\"☕ /\"}"
    );
}

#[test]
fn object_from_literals_frames_what_it_is_given() {
    assert_eq!(object_from_literals(&Vec::new()), "{}");
    assert_eq!(
        object_from_literals(&vec![("\"k\"".to_string(), "\"v\"".to_string())]),
        "{\"k\":\"v\"}"
    );
    assert_eq!(
        object_from_literals(&vec![
            ("K1".to_string(), "V1".to_string()),
            ("K2".to_string(), "V2".to_string()),
            ("".to_string(), "".to_string()),
        ]),
        "{K1:V1,K2:V2,:}"
    );
}

#[test]
fn command_request_dispatches_on_the_command() {
    let config = ClientConfig::new();
    let get_command = Command::get("https://abc.xyz").unwrap();
    assert_eq!(get_command.request(&config), get(&config, "https://abc.xyz"));
    let tokens: Vec<String> = vec!["a=1".into(), "b=2".into()];
    let post_command = Command::post("https://abc.org/xyz", &tokens).unwrap();
    let request = post_command.request(&config);
    assert_eq!(request.method, Method::Post);
    assert_eq!(request.url, "https://abc.org/xyz");
    assert_eq!(request.body, Some("{\"a\":\"1\",\"b\":\"2\"}".to_string()));
}
