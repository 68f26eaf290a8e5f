use proxer::config::{AuthCredentials, Package};
use proxer::handshake::{
    build_connect_request, eq_ignore_ascii_case, is_upstream_accepted, parse_scheme, to_sha256,
    ProxyScheme,
};

fn package() -> Package {
    Package { name: "proxer".to_string(), version: "1.2.3".to_string() }
}

fn creds(user: &str, pass: &str) -> AuthCredentials {
    AuthCredentials { username: user.to_string(), password: pass.to_string() }
}

#[test]
fn ascii_case_is_ignored() {
    assert!(eq_ignore_ascii_case("HtTp", "http"));
    assert!(!eq_ignore_ascii_case("http", "https"));
    assert!(!eq_ignore_ascii_case("htta", "http"));
    assert!(eq_ignore_ascii_case("", ""));
}

#[test]
fn schemes_are_read_without_case() {
    assert_eq!(parse_scheme("HTTP"), Some(ProxyScheme::Http));
    assert_eq!(parse_scheme("http"), Some(ProxyScheme::Http));
    assert_eq!(parse_scheme("HTTPS"), Some(ProxyScheme::Https));
    assert_eq!(parse_scheme("Https"), Some(ProxyScheme::Https));
    assert_eq!(parse_scheme("socks5"), None);
    assert_eq!(parse_scheme(""), None);
}

#[test]
fn connect_request_without_credentials() {
    let req = build_connect_request(
        "shop.example.com:443",
        ProxyScheme::Http,
        &creds("", ""),
        &package(),
        None,
    );
    assert_eq!(
        req,
        "CONNECT shop.example.com:443 HTTP/1.1\r\n\
         Host: shop.example.com:443\r\n\
         Proxy-Connection: Keep-Alive\r\n\
         User-Agent: proxer/1.2.3\r\n\
         \r\n"
    );
    assert!(!req.contains("Proxy-Authorization"));
}

#[test]
fn connect_request_with_credentials() {
    let req = build_connect_request(
        "shop.example.com:443",
        ProxyScheme::Http,
        &creds("u", "p"),
        &package(),
        None,
    );
    assert!(req.contains("Proxy-Authorization: Basic dTpw\r\n"));
    assert!(req.ends_with("dTpw\r\n\r\n"));
}

#[test]
fn one_empty_credential_sends_no_authorization() {
    let a = build_connect_request("h:1", ProxyScheme::Http, &creds("u", ""), &package(), None);
    let b = build_connect_request("h:1", ProxyScheme::Http, &creds("", "p"), &package(), None);
    assert!(!a.contains("Proxy-Authorization"));
    assert!(!b.contains("Proxy-Authorization"));
}

#[test]
fn basic_authorization_is_padded_base64() {
    let req = build_connect_request("h:1", ProxyScheme::Http, &creds("user", "pa"), &package(), None);
    assert!(req.contains("Proxy-Authorization: Basic dXNlcjpwYQ==\r\n"));
}

#[test]
fn sha256_digest_is_lower_hex() {
    assert_eq!(
        to_sha256("abc"),
        "ba7816bf8f01cfea414140de5dae2223b00361a396177a9cb410ff61f20015ad"
    );
}

#[test]
fn token_header_depends_on_scheme() {
    let digest = to_sha256("abc");
    let http = build_connect_request(
        "h:443",
        ProxyScheme::Http,
        &creds("", ""),
        &package(),
        Some(digest.as_str()),
    );
    let https = build_connect_request(
        "h:443",
        ProxyScheme::Https,
        &creds("", ""),
        &package(),
        Some(digest.as_str()),
    );
    assert!(http.ends_with(&format!("x-http-secret-token: {digest}\r\n\r\n")));
    assert!(https.ends_with(&format!("x-https-secret-token: {digest}\r\n\r\n")));
}

#[test]
fn reply_must_start_with_http_11_200() {
    assert!(is_upstream_accepted(b"HTTP/1.1 200 Connection established\r\n\r\n"));
    assert!(is_upstream_accepted(b"HTTP/1.1 200"));
    assert!(!is_upstream_accepted(b"HTTP/1.1 407 Proxy Authentication Required\r\n"));
    assert!(!is_upstream_accepted(b"HTTP/1.0 200 OK\r\n"));
    assert!(!is_upstream_accepted(b"HTTP/1.1 20"));
    assert!(!is_upstream_accepted(b""));
    assert!(!is_upstream_accepted(b" HTTP/1.1 200"));
}

#[test]
fn reply_prefix_match_is_literal() {
    assert!(is_upstream_accepted(b"HTTP/1.1 2001 odd"));
}
