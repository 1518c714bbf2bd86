use southesk::auth_handler::{browser_callback_url, grant_from_url_query, AuthGrant, AuthHandler, ConsoleAuth};
use southesk::error::ClientConnectError;
use southesk::oauth_handler::{
    callback_from_query_pairs, AuthCallbackHandler, ConsoleAuthHandler,
};

fn pairs(v: &[(&str, &str)]) -> Vec<(String, String)> {
    v.iter().map(|(k, v)| (k.to_string(), v.to_string())).collect()
}

fn auth_err(e: ClientConnectError) -> (String, Option<String>) {
    match e {
        ClientConnectError::AuthError { msg, source } => (msg, source),
        other => panic!("unexpected {other:?}"),
    }
}

#[test]
fn console_auth_redirect_uri() {
    assert_eq!(
        ConsoleAuth::new().redirect_uri(),
        "http://localhost:7878/callback"
    );
    assert_eq!(
        ConsoleAuth::default().redirect_uri(),
        "http://localhost:7878/callback"
    );
    assert_eq!(
        ConsoleAuthHandler::new().get_listen_addr(),
        "http://localhost:7878/callback"
    );
}

#[test]
fn grant_from_pasted_redirect_url() {
    let g = ConsoleAuth::grant_from_redirect_url(
        "http://localhost:7878/callback?code=abc%20d&state=xyz&extra=1",
    )
    .unwrap();
    assert_eq!(
        g,
        AuthGrant {
            code: "abc d".into(),
            state: "xyz".into()
        }
    );
}

#[test]
fn grant_refuses_invalid_url() {
    let (msg, source) = auth_err(ConsoleAuth::grant_from_redirect_url("not a url").unwrap_err());
    assert!(msg.starts_with("Invalid redirect URL 'not a url': "));
    assert_eq!(source, None);
}

#[test]
fn grant_refuses_missing_and_duplicate_fields() {
    let url = "http://localhost:7878/callback?state=s";
    let (msg, source) = auth_err(ConsoleAuth::grant_from_redirect_url(url).unwrap_err());
    assert_eq!(
        msg,
        format!("Failed to parse query parameters from redirect URL '{url}': missing field `code`")
    );
    assert_eq!(source.as_deref(), Some("missing field `code`"));

    let (msg, _) = auth_err(
        ConsoleAuth::grant_from_redirect_url("http://h/cb").unwrap_err(),
    );
    assert!(msg.ends_with("missing field `code`"));

    assert_eq!(
        AuthGrant::from_form_pairs(&pairs(&[("code", "a"), ("code", "b"), ("state", "s")]))
            .unwrap_err(),
        "duplicate field `code`"
    );
    assert_eq!(
        AuthGrant::from_form_pairs(&pairs(&[("state", "a"), ("state", "b")])).unwrap_err(),
        "duplicate field `state`"
    );
    assert_eq!(
        AuthGrant::from_form_pairs(&pairs(&[("code", "a")])).unwrap_err(),
        "missing field `state`"
    );
}

#[test]
fn grant_from_query_without_query() {
    let (msg, _) = auth_err(grant_from_url_query("u", None).unwrap_err());
    assert_eq!(
        msg,
        "Failed to parse query parameters from redirect URL 'u': missing field `code`"
    );
    let g = grant_from_url_query("u", Some("state=2&code=1")).unwrap();
    assert_eq!(g.code, "1");
    assert_eq!(g.state, "2");
}

#[test]
fn callback_takes_last_values() {
    let cb = callback_from_query_pairs(&pairs(&[
        ("code", "a"),
        ("state", "s"),
        ("code", "b"),
    ]))
    .unwrap();
    assert_eq!(cb.code, "b");
    assert_eq!(cb.state, "s");
}

#[test]
fn callback_missing_parameters() {
    let (msg, source) =
        auth_err(callback_from_query_pairs(&pairs(&[("state", "s")])).unwrap_err());
    assert_eq!(msg, "Missing 'code' parameter in redirect URL");
    assert_eq!(source, None);
    let (msg, _) = auth_err(callback_from_query_pairs(&pairs(&[("code", "c")])).unwrap_err());
    assert_eq!(msg, "Missing 'state' parameter in redirect URL");
}

#[test]
fn callback_from_pasted_redirect_url() {
    let cb = ConsoleAuthHandler::callback_from_redirect_url(
        "http://localhost:7878/callback?code=c1&state=s1",
    )
    .unwrap();
    assert_eq!((cb.code.as_str(), cb.state.as_str()), ("c1", "s1"));
    let (msg, source) = auth_err(
        ConsoleAuthHandler::callback_from_redirect_url("::").unwrap_err(),
    );
    assert!(msg.starts_with("Invalid redirect URL '::': "));
    assert_eq!(source, None);
}

#[test]
fn callback_accepts_what_grant_accepts() {
    let p = pairs(&[("x", "1"), ("state", "s"), ("code", "c")]);
    let g = AuthGrant::from_form_pairs(&p).unwrap();
    let cb = callback_from_query_pairs(&p).unwrap();
    assert_eq!((g.code, g.state), (cb.code, cb.state));
}

#[test]
fn browser_callback_url_for_port() {
    assert_eq!(browser_callback_url(8080), "http://localhost:8080/callback");
    assert_eq!(browser_callback_url(0), "http://localhost:0/callback");
    assert_eq!(browser_callback_url(65535), "http://localhost:65535/callback");
    assert_eq!(browser_callback_url(10), "http://localhost:10/callback");
}

#[test]
fn redirect_readers_give_exact_errors() {
    let (msg, _) = auth_err(ConsoleAuth::grant_from_redirect_url("not a url").unwrap_err());
    assert_eq!(msg, "Invalid redirect URL 'not a url': relative URL without a base");
    let (msg, _) = auth_err(ConsoleAuthHandler::callback_from_redirect_url("::").unwrap_err());
    assert_eq!(msg, "Invalid redirect URL '::': relative URL without a base");
    let (msg, source) = auth_err(
        ConsoleAuthHandler::callback_from_redirect_url("http://h/cb?state=s").unwrap_err(),
    );
    assert_eq!(msg, "Missing 'code' parameter in redirect URL");
    assert_eq!(source, None);
    let (msg, _) = auth_err(
        ConsoleAuthHandler::callback_from_redirect_url("http://h/cb?code=c").unwrap_err(),
    );
    assert_eq!(msg, "Missing 'state' parameter in redirect URL");
}
