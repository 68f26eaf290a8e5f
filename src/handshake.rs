use vstd::prelude::*;
use vstd::string::{StrSliceExecFns, StringSliceAdditionalSpecFns};
use vstd::utf8::encode_utf8;

use base64::engine::general_purpose::STANDARD;
use base64::Engine;
use sha2::{Digest, Sha256};

use crate::config::{AuthCredentials, Package};

verus! {

/// The transport to an upstream proxy.
#[derive(Debug, Clone, Copy, PartialEq, Eq, Structural)]
pub enum ProxyScheme {
    Http,
    Https,
}

/// The code of a character with ASCII upper-case letters mapped to lower case.
pub open spec fn ascii_fold(c: char) -> u32 {
    if 65 <= c as u32 <= 90 {
        (c as u32 + 32) as u32
    } else {
        c as u32
    }
}

/// Equality of two strings up to ASCII case.
pub open spec fn eq_ascii_ci(a: Seq<char>, b: Seq<char>) -> bool {
    a.len() == b.len() && forall|i: int| 0 <= i < a.len() ==> ascii_fold(#[trigger] a[i]) == ascii_fold(b[i])
}

/// Whether `a` and `b` are equal when ASCII letters are compared without case.
pub fn eq_ignore_ascii_case(a: &str, b: &str) -> (r: bool)
    ensures
        r == eq_ascii_ci(a@, b@),
{
    let n = a.unicode_len();
    if n != b.unicode_len() {
        return false;
    }
    let mut i: usize = 0;
    while i < n
        invariant
            n == a@.len(),
            n == b@.len(),
            0 <= i <= n,
            forall|k: int| 0 <= k < i ==> ascii_fold(#[trigger] a@[k]) == ascii_fold(b@[k]),
        decreases n - i,
    {
        let x = a.get_char(i) as u32;
        let y = b.get_char(i) as u32;
        let fx: u32 = if 65 <= x && x <= 90 {
            x + 32
        } else {
            x
        };
        let fy: u32 = if 65 <= y && y <= 90 {
            y + 32
        } else {
            y
        };
        if fx != fy {
            return false;
        }
        i += 1;
    }
    true
}

/// The scheme named by a configuration string, compared without ASCII case.
pub open spec fn scheme_of(s: Seq<char>) -> Option<ProxyScheme> {
    if eq_ascii_ci(s, "http"@) {
        Some(ProxyScheme::Http)
    } else if eq_ascii_ci(s, "https"@) {
        Some(ProxyScheme::Https)
    } else {
        None
    }
}

/// Reads a proxy scheme (`http` or `https`, in any ASCII case).
pub fn parse_scheme(s: &str) -> (r: Option<ProxyScheme>)
    ensures
        r == scheme_of(s@),
{
    if eq_ignore_ascii_case(s, "http") {
        Some(ProxyScheme::Http)
    } else if eq_ignore_ascii_case(s, "https") {
        Some(ProxyScheme::Https)
    } else {
        None
    }
}

/// The character for a six-bit value in the standard base64 alphabet.
pub open spec fn b64_digit(v: int) -> char {
    if v < 26 {
        (65 + v) as char
    } else if v < 52 {
        (97 + v - 26) as char
    } else if v < 62 {
        (48 + v - 52) as char
    } else if v == 62 {
        '+'
    } else {
        '/'
    }
}

/// Standard base64 (RFC 4648 alphabet, `=` padding) of a byte string.
pub open spec fn base64_std(b: Seq<u8>) -> Seq<char>
    decreases b.len(),
{
    if b.len() == 0 {
        seq![]
    } else if b.len() == 1 {
        seq![b64_digit((b[0] as int) / 4), b64_digit(((b[0] as int) % 4) * 16), '=', '=']
    } else if b.len() == 2 {
        seq![
            b64_digit((b[0] as int) / 4),
            b64_digit(((b[0] as int) % 4) * 16 + (b[1] as int) / 16),
            b64_digit(((b[1] as int) % 16) * 4),
            '=',
        ]
    } else {
        seq![
            b64_digit((b[0] as int) / 4),
            b64_digit(((b[0] as int) % 4) * 16 + (b[1] as int) / 16),
            b64_digit(((b[1] as int) % 16) * 4 + (b[2] as int) / 64),
            b64_digit((b[2] as int) % 64),
        ] + base64_std(b.subrange(3, b.len() as int))
    }
}

/// Relies on `base64::Engine::encode` with the `STANDARD` engine: the
/// RFC 4648 alphabet with `=` padding. Its output size cannot overflow for
/// a slice that fits in memory.
#[verifier::external_body]
fn base64_encode(data: &[u8]) -> (r: String)
    ensures
        r@ == base64_std(data@),
{
    STANDARD.encode(data)
}

/// Lower-case hex text of the SHA-256 digest of a byte string.
pub uninterp spec fn sha256_hex(data: Seq<u8>) -> Seq<char>;

/// Relies on `sha2::Sha256` and the lower-hex formatting of its digest:
/// the text depends on the input bytes alone.
#[verifier::external_body]
pub fn to_sha256(input: &str) -> (r: String)
    ensures
        r@ == sha256_hex(input.spec_bytes()),
{
    let mut hasher = Sha256::new();
    hasher.update(input);
    format!("{:x}", hasher.finalize())
}

/// Both the user name and the password are non-empty.
pub open spec fn has_credentials(c: AuthCredentials) -> bool {
    c.username@.len() > 0 && c.password@.len() > 0
}

/// Value of the basic `Proxy-Authorization` header for the credentials.
pub open spec fn basic_auth(c: AuthCredentials) -> Seq<char> {
    base64_std(encode_utf8(c.username@ + ":"@ + c.password@))
}

/// Name of the header that carries the secret-token digest.
pub open spec fn token_header(scheme: ProxyScheme) -> Seq<char> {
    match scheme {
        ProxyScheme::Http => "x-http-secret-token"@,
        ProxyScheme::Https => "x-https-secret-token"@,
    }
}

/// The CONNECT request sent to an upstream proxy for the target authority
/// `addr`, with optional basic authorization and secret-token header, ended
/// by a blank line.
pub open spec fn connect_request(
    addr: Seq<char>,
    scheme: ProxyScheme,
    credentials: AuthCredentials,
    package: Package,
    token_digest: Option<Seq<char>>,
) -> Seq<char> {
    "CONNECT "@ + addr + " HTTP/1.1\r\n"@ + "Host: "@ + addr + "\r\n"@
        + "Proxy-Connection: Keep-Alive\r\n"@ + "User-Agent: "@ + package.name@ + "/"@
        + package.version@ + "\r\n"@ + (if has_credentials(credentials) {
        "Proxy-Authorization: Basic "@ + basic_auth(credentials) + "\r\n"@
    } else {
        Seq::empty()
    }) + (match token_digest {
        Some(d) => token_header(scheme) + ": "@ + d + "\r\n"@,
        None => Seq::empty(),
    }) + "\r\n"@
}

/// Builds the CONNECT request for `addr` given the digest of the secret
/// token, if one is configured.
pub fn build_connect_request(
    addr: &str,
    scheme: ProxyScheme,
    credentials: &AuthCredentials,
    package: &Package,
    token_digest: Option<&str>,
) -> (r: String)
    ensures
        r@ == connect_request(
            addr@,
            scheme,
            *credentials,
            *package,
            match token_digest {
                Some(d) => Some(d@),
                None => None,
            },
        ),
{
    let mut req = String::from_str("CONNECT ");
    req.append(addr);
    req.append(" HTTP/1.1\r\n");
    req.append("Host: ");
    req.append(addr);
    req.append("\r\n");
    req.append("Proxy-Connection: Keep-Alive\r\n");
    req.append("User-Agent: ");
    req.append(package.name.as_str());
    req.append("/");
    req.append(package.version.as_str());
    req.append("\r\n");
    let ghost head = req@;
    let user = credentials.username.as_str();
    let pass = credentials.password.as_str();
    if !user.is_empty() && !pass.is_empty() {
        let mut pair = String::from_str(user);
        pair.append(":");
        pair.append(pass);
        let encoded = base64_encode(pair.as_str().as_bytes());
        req.append("Proxy-Authorization: Basic ");
        req.append(encoded.as_str());
        req.append("\r\n");
    } else {
        assert(head + Seq::<char>::empty() =~= head);
    }
    let ghost with_auth = req@;
    match token_digest {
        Some(d) => {
            match scheme {
                ProxyScheme::Http => req.append("x-http-secret-token"),
                ProxyScheme::Https => req.append("x-https-secret-token"),
            }
            req.append(": ");
            req.append(d);
            req.append("\r\n");
        },
        None => {
            assert(with_auth + Seq::<char>::empty() =~= with_auth);
        },
    }
    req.append("\r\n");
    req
}

/// The bytes `HTTP/1.1 200`, the only accepted start of an upstream reply.
pub open spec fn accept_prefix() -> Seq<u8> {
    seq![72u8, 84, 84, 80, 47, 49, 46, 49, 32, 50, 48, 48]
}

/// The upstream reply starts with `HTTP/1.1 200`.
pub open spec fn upstream_accepts(reply: Seq<u8>) -> bool {
    reply.len() >= accept_prefix().len() && reply.subrange(0, accept_prefix().len() as int)
        == accept_prefix()
}

/// Whether the upstream proxy accepted the tunnel: its reply must start
/// with the literal bytes `HTTP/1.1 200`.
pub fn is_upstream_accepted(reply: &[u8]) -> (r: bool)
    ensures
        r == upstream_accepts(reply@),
{
    let prefix: [u8; 12] = [72, 84, 84, 80, 47, 49, 46, 49, 32, 50, 48, 48];
    assert(prefix@ =~= accept_prefix());
    if reply.len() < 12 {
        return false;
    }
    let mut i: usize = 0;
    while i < 12
        invariant
            reply@.len() >= 12,
            prefix@ == accept_prefix(),
            0 <= i <= 12,
            forall|k: int| 0 <= k < i ==> reply@[k] == accept_prefix()[k],
        decreases 12 - i,
    {
        if reply[i] != prefix[i] {
            assert(reply@.subrange(0, 12)[i as int] != accept_prefix()[i as int]);
            return false;
        }
        i += 1;
    }
    assert(reply@.subrange(0, 12) =~= accept_prefix());
    true
}

} // verus!
