use oauth_deeplink::extract::{diagnostic, extract, ExtractError};
use oauth_deeplink::query::first_value;
use oauth_deeplink::uri::parse;

/// Runs one activation through the pipeline the way the application shell
/// does: a successful extraction is one delivery, anything else adds one
/// non-secret log line. Returns (deliveries, log lines).
fn run_activation(raw: &str, scheme: &str) -> (Vec<String>, Vec<String>) {
    let mut delivered: Vec<String> = Vec::new();
    let mut log: Vec<String> = Vec::new();
    match extract(raw, scheme) {
        Ok(token) => delivered.push(token.into_value()),
        Err(reason) => log.push(diagnostic(&reason)),
    }
    (delivered, log)
}

#[test]
fn token_extracted_from_callback() {
    let r = extract("app://auth/callback?token=abc123", "app");
    assert_eq!(r.unwrap().into_value(), "abc123");
    let (delivered, _) = run_activation("app://auth/callback?token=abc123", "app");
    assert_eq!(delivered, vec!["abc123".to_string()]);
}

#[test]
fn missing_token_is_distinct() {
    let r = extract("app://auth/callback?code=xyz", "app");
    assert_eq!(r.err().unwrap(), ExtractError::MissingToken);
    let (delivered, log) = run_activation("app://auth/callback?code=xyz", "app");
    assert_eq!(delivered.len(), 0);
    assert_eq!(log.len(), 1);
}

#[test]
fn unrelated_deep_link_is_no_match() {
    let r = extract("app://other/path", "app");
    assert_eq!(r.err().unwrap(), ExtractError::NoMatch);
    let (delivered, _) = run_activation("app://other/path", "app");
    assert_eq!(delivered.len(), 0);
}

#[test]
fn unparseable_input_is_malformed() {
    let r = extract("not a uri", "app");
    assert_eq!(r.err().unwrap(), ExtractError::Malformed);
    let (delivered, _) = run_activation("not a uri", "app");
    assert_eq!(delivered.len(), 0);
}

#[test]
fn first_token_parameter_wins() {
    let r = extract("app://auth/callback?token=first&token=second", "app");
    assert_eq!(r.unwrap().into_value(), "first");
}

#[test]
fn surrounding_parameters_do_not_matter() {
    let r = extract("app://auth/callback?state=s1&code=c2&token=tok&extra=e3", "app");
    assert_eq!(r.unwrap().into_value(), "tok");
    let r = extract("app://auth/callback?token=tok&state=s1", "app");
    assert_eq!(r.unwrap().into_value(), "tok");
}

#[test]
fn empty_token_value_is_the_empty_string() {
    let r = extract("app://auth/callback?token=", "app");
    assert_eq!(r.unwrap().into_value(), "");
    let r = extract("app://auth/callback?token&code=x", "app");
    assert_eq!(r.unwrap().into_value(), "");
}

#[test]
fn scheme_must_match_the_registered_one() {
    let r = extract("other://auth/callback?token=x", "app");
    assert_eq!(r.err().unwrap(), ExtractError::NoMatch);
    let r = extract("app://auth/callback?token=x", "other");
    assert_eq!(r.err().unwrap(), ExtractError::NoMatch);
}

#[test]
fn callback_path_is_a_prefix_match() {
    let r = extract("app://auth/callback/extra?token=x", "app");
    assert_eq!(r.unwrap().into_value(), "x");
    let r = extract("app://auth/call?token=x", "app");
    assert_eq!(r.err().unwrap(), ExtractError::NoMatch);
}

#[test]
fn matching_callback_without_query_misses_the_token() {
    let r = extract("app://auth/callback", "app");
    assert_eq!(r.err().unwrap(), ExtractError::MissingToken);
    let r = extract("app://auth/callback?", "app");
    assert_eq!(r.err().unwrap(), ExtractError::MissingToken);
}

#[test]
fn malformed_shapes() {
    for raw in ["", "://auth/callback", "1app://auth/callback", "app:/auth/callback", "app",
        "APP://auth/callback?token=x", "ap p://auth/callback"] {
        let r = extract(raw, "app");
        assert_eq!(r.err().unwrap(), ExtractError::Malformed, "input: {:?}", raw);
    }
}

#[test]
fn log_output_never_contains_the_token() {
    let secret = "abc123";
    let inputs = [
        "app://auth/callback?token=abc123",
        "app://auth/callback?code=abc123",
        "app://other/path?token=abc123",
        "not a uri token=abc123",
    ];
    let mut log: Vec<String> = Vec::new();
    let mut delivered: Vec<String> = Vec::new();
    for raw in inputs {
        let (mut d, mut l) = run_activation(raw, "app");
        delivered.append(&mut d);
        log.append(&mut l);
    }
    assert_eq!(delivered, vec![secret.to_string()]);
    for line in &log {
        assert!(!line.contains(secret), "log line leaks the token: {:?}", line);
    }
}

#[test]
fn parser_components() {
    let u = parse("app://auth/callback?a=1&b=2").unwrap();
    assert_eq!(u.scheme, "app");
    assert_eq!(u.host, "auth");
    assert_eq!(u.path, "/callback");
    assert_eq!(u.query, "a=1&b=2");

    let u = parse("vex://host").unwrap();
    assert_eq!(u.scheme, "vex");
    assert_eq!(u.host, "host");
    assert_eq!(u.path, "");
    assert_eq!(u.query, "");

    assert!(parse("no separator").is_none());
}

#[test]
fn query_first_value_walks_in_order() {
    assert_eq!(first_value("a=1&b=2&a=3", "a"), Some("1".to_string()));
    assert_eq!(first_value("a=1&b=2", "b"), Some("2".to_string()));
    assert_eq!(first_value("a=1&b=2", "c"), None);
    assert_eq!(first_value("", "token"), None);
    assert_eq!(first_value("token", "token"), Some("".to_string()));
    assert_eq!(first_value("&&", ""), Some("".to_string()));
    assert_eq!(first_value("a=1", ""), None);
    assert_eq!(first_value("token=a=b", "token"), Some("a=b".to_string()));
}
