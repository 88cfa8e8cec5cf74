use httpie::{
    body_text, json_body_text, render_response, BodyKind, Header, HttpieError, Rendered,
    ResponseHead, Status, Version,
};

fn header(name: &str, value: &str) -> Header {
    Header { name: name.into(), value: value.into() }
}

fn head(headers: Vec<Header>) -> ResponseHead {
    ResponseHead { version: Version::Http11, status: Status::new(200).unwrap(), headers }
}

#[test]
fn json_body_is_pretty_printed() {
    let response = head(vec![header("Content-Type", "application/json")]);
    let shown = render_response(&response, "{\"a\":1}").unwrap();
    assert_eq!(shown.kind, BodyKind::Json);
    assert!(shown.body.contains("  \"a\": 1"));
    assert_eq!(shown.body, "{\n  \"a\": 1\n}");
}

#[test]
fn plain_text_body_is_shown_verbatim() {
    let response = head(vec![header("Content-Type", "text/plain")]);
    let body = "{\"a\":1}  \n\t<b>not touched</b>\r\n";
    let shown = render_response(&response, body).unwrap();
    assert_eq!(shown.kind, BodyKind::Raw);
    assert_eq!(shown.body, body);
}

#[test]
fn html_body_keeps_its_text() {
    let response = head(vec![header("content-type", "text/html")]);
    let body = "<html>\n<body>{\"a\":1}</body></html>";
    let shown = render_response(&response, body).unwrap();
    assert_eq!(shown.kind, BodyKind::Html);
    assert_eq!(shown.body, body);
}

#[test]
fn body_without_content_type_is_shown_verbatim() {
    let shown = render_response(&head(Vec::new()), "{\"a\":1}").unwrap();
    assert_eq!(shown.kind, BodyKind::Raw);
    assert_eq!(shown.body, "{\"a\":1}");
}

#[test]
fn json_with_parameters_is_shown_verbatim() {
    let response = head(vec![header("content-type", "application/json; charset=utf-8")]);
    let shown = render_response(&response, "{\"a\":1}").unwrap();
    assert_eq!(shown.kind, BodyKind::Raw);
    assert_eq!(shown.body, "{\"a\":1}");
}

#[test]
fn render_response_keeps_status_and_headers() {
    let headers = vec![
        header("server", "nginx"),
        header("content-type", "application/json"),
        header("server", "again"),
    ];
    let response = ResponseHead {
        version: Version::H2,
        status: Status::new(201).unwrap(),
        headers: headers.clone(),
    };
    let shown = render_response(&response, "[1,2]").unwrap();
    assert_eq!(
        shown,
        Rendered {
            status: "HTTP/2.0 201 Created".into(),
            headers,
            kind: BodyKind::Json,
            body: "[\n  1,\n  2\n]".into(),
        }
    );
}

#[test]
fn render_response_refuses_a_bad_content_type() {
    let response = head(vec![header("content-type", "not a type")]);
    assert_eq!(
        render_response(&response, "{}"),
        Err(HttpieError::HeaderDecode { value: "not a type".into() })
    );
}

#[test]
fn body_text_changes_json_only() {
    assert_eq!(body_text(BodyKind::Raw, " {\"a\":1} "), Ok(" {\"a\":1} ".to_string()));
    assert_eq!(body_text(BodyKind::Html, " {\"a\":1} "), Ok(" {\"a\":1} ".to_string()));
    assert_eq!(body_text(BodyKind::Json, " {\"a\":1} "), Ok("{\n  \"a\": 1\n}".to_string()));
    assert_eq!(body_text(BodyKind::Raw, ""), Ok(String::new()));
    assert_eq!(body_text(BodyKind::Json, ""), Ok(String::new()));
}

#[test]
fn body_text_lays_out_nested_json() {
    let body = "{\"a\":{\"b\":[1,{\"c\":\"x, y: {z}\"}],\"d\":{}},\"e\":\"é\"}";
    let lines = [
        "{",
        "  \"a\": {",
        "    \"b\": [",
        "      1,",
        "      {",
        "        \"c\": \"x, y: {z}\"",
        "      }",
        "    ],",
        "    \"d\": {}",
        "  },",
        "  \"e\": \"é\"",
        "}",
    ];
    assert_eq!(body_text(BodyKind::Json, body), Ok(lines.join("\n")));
}

#[test]
fn json_body_text_maps_the_failure() {
    assert_eq!(json_body_text(Ok("{}".into())), Ok("{}".to_string()));
    assert_eq!(
        json_body_text(Err("broken".into())),
        Err(HttpieError::BodyFormat { message: "broken".into() })
    );
}

#[test]
fn plain_text_has_three_parts() {
    let shown = Rendered {
        status: "HTTP/1.1 200 OK".into(),
        headers: vec![header("content-type", "application/json"), header("content-length", "7")],
        kind: BodyKind::Json,
        body: "{\n  \"a\": 1\n}".into(),
    };
    assert_eq!(
        shown.plain_text(),
        "HTTP/1.1 200 OK\n\ncontent-type: application/json\ncontent-length: 7\n\n{\n  \"a\": 1\n}\n"
    );
    let bare = Rendered {
        status: "HTTP/1.0 204 No Content".into(),
        headers: Vec::new(),
        kind: BodyKind::Raw,
        body: "".into(),
    };
    assert_eq!(bare.plain_text(), "HTTP/1.0 204 No Content\n\n\n\n");
}

#[test]
fn error_messages_name_what_was_wrong() {
    assert_eq!(
        HttpieError::InvalidUrl {
            input: "abc".into(),
            reason: "relative URL without a base".into(),
        }
        .message(),
        "Invalid URL abc: relative URL without a base"
    );
    assert_eq!(HttpieError::InvalidKvPair { input: "a".into() }.message(), "Failed to parse a");
    assert_eq!(
        HttpieError::Transport { message: "connection refused".into() }.message(),
        "connection refused"
    );
    assert_eq!(HttpieError::BodyRead { message: "timed out".into() }.message(), "timed out");
    assert_eq!(
        HttpieError::HeaderDecode { value: "x".into() }.message(),
        "Invalid Content-Type header: x"
    );
    assert_eq!(HttpieError::BodyFormat { message: "bad".into() }.message(), "bad");
}
