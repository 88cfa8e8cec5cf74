use httpie::{parse_kv_pair, parse_kv_pairs, HttpieError, KvPair};

fn pair(k: &str, v: &str) -> KvPair {
    KvPair { k: k.into(), v: v.into() }
}

#[test]
fn parse_kv_pair_works() {
    assert!(parse_kv_pair("a").is_err());
    assert_eq!(
        parse_kv_pair("a=1").unwrap(),
        KvPair {
            k: "a".into(),
            v: "1".into(),
        }
    );
    assert_eq!(
        parse_kv_pair("b=").unwrap(),
        KvPair {
            k: "b".into(),
            v: "".into(),
        }
    );
}

#[test]
fn parse_kv_pair_splits_at_the_first_equals() {
    assert_eq!(parse_kv_pair("a=b=c").unwrap(), pair("a", "b=c"));
    assert_eq!(parse_kv_pair("a==").unwrap(), pair("a", "="));
    assert_eq!(parse_kv_pair("q=x=1&y=2").unwrap(), pair("q", "x=1&y=2"));
}

#[test]
fn parse_kv_pair_allows_empty_parts() {
    assert_eq!(parse_kv_pair("=v").unwrap(), pair("", "v"));
    assert_eq!(parse_kv_pair("=").unwrap(), pair("", ""));
    assert_eq!(parse_kv_pair("k=").unwrap(), pair("k", ""));
}

#[test]
fn parse_kv_pair_keeps_what_is_not_ascii() {
    assert_eq!(parse_kv_pair("nom=café ☕").unwrap(), pair("nom", "café ☕"));
    assert_eq!(
        parse_kv_pair("ключ=значение").unwrap(),
        pair("ключ", "значение")
    );
    assert_eq!(parse_kv_pair("a b = c ").unwrap(), pair("a b ", " c "));
}

#[test]
fn parse_kv_pair_refuses_a_token_without_equals() {
    assert_eq!(
        parse_kv_pair("abc"),
        Err(HttpieError::InvalidKvPair { input: "abc".into() })
    );
    assert_eq!(
        parse_kv_pair(""),
        Err(HttpieError::InvalidKvPair { input: "".into() })
    );
    assert_eq!(
        parse_kv_pair("a:1"),
        Err(HttpieError::InvalidKvPair { input: "a:1".into() })
    );
}

#[test]
fn parse_kv_pair_reads_back_a_joined_key_and_value() {
    let keys = ["", "a", "name", "with space", "ünï"];
    let values = ["", "1", "x=y", "=", "two words", "\"quoted\""];
    for k in keys {
        for v in values {
            let token = format!("{}={}", k, v);
            assert_eq!(parse_kv_pair(&token).unwrap(), pair(k, v));
        }
    }
}

#[test]
fn kv_pair_parses_from_a_str() {
    let parsed: KvPair = "a=1".parse().unwrap();
    assert_eq!(parsed, pair("a", "1"));
    assert!("a".parse::<KvPair>().is_err());
}

#[test]
fn parse_kv_pairs_reads_tokens_in_order() {
    let tokens: Vec<String> = vec!["a=1".into(), "b=2".into(), "a=3".into()];
    assert_eq!(
        parse_kv_pairs(&tokens).unwrap(),
        vec![pair("a", "1"), pair("b", "2"), pair("a", "3")]
    );
    assert_eq!(parse_kv_pairs(&Vec::new()).unwrap(), Vec::<KvPair>::new());
}

#[test]
fn parse_kv_pairs_reports_the_first_bad_token() {
    let tokens: Vec<String> = vec!["a=1".into(), "bad".into(), "worse".into(), "c=3".into()];
    assert_eq!(
        parse_kv_pairs(&tokens),
        Err(HttpieError::InvalidKvPair { input: "bad".into() })
    );
}
