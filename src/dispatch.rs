use vstd::prelude::*;
use vstd::string::StringSliceAdditionalSpecFns;

use crate::config::{Package, ProxyConfig};
use crate::decoy::{build_decoy_packet, decoy_packet, DECOY_NOISE_LEN, MAX_SNI_LEN};
use crate::routing::{cache_consistent, find_matching_proxy, is_first_match, no_route, HostCache};
use crate::session::{decoy_applies, names_tls_port, session_starts, token_digest_of, TunnelSession};

verus! {

/// Port a plain request goes to when its URI names none.
pub const DEFAULT_HTTP_PORT: u16 = 80;

/// How the HTTP layer answers an inbound request.
#[derive(Debug, Clone, Copy, PartialEq, Eq, Structural)]
pub enum RequestPlan {
    /// Answer `200 OK` with an empty body, then upgrade and run a tunnel.
    Tunnel,
    /// Answer `400 Bad Request`: a CONNECT without an authority.
    BadConnect,
    /// Forward the request unchanged to its host on `port`.
    Forward { port: u16 },
}

/// Decides how to answer a request from its method, whether its URI has
/// an authority, and the port its URI names.
pub fn plan_request(is_connect: bool, has_authority: bool, port: Option<u16>) -> (r: RequestPlan)
    ensures
        r == if is_connect {
            if has_authority {
                RequestPlan::Tunnel
            } else {
                RequestPlan::BadConnect
            }
        } else {
            RequestPlan::Forward {
                port: match port {
                    Some(p) => p,
                    None => DEFAULT_HTTP_PORT,
                },
            }
        },
{
    if is_connect {
        if has_authority {
            RequestPlan::Tunnel
        } else {
            RequestPlan::BadConnect
        }
    } else {
        match port {
            Some(p) => RequestPlan::Forward { port: p },
            None => RequestPlan::Forward { port: DEFAULT_HTTP_PORT },
        }
    }
}

/// How a direct tunnel to `target` begins: with the decoy for `decoy_sni`
/// when decoys are enabled, the target is on port 443 and the decoy can be
/// built from `noise`; without one otherwise.
pub open spec fn direct_decoy(
    dpi_enabled: bool,
    target: Seq<char>,
    decoy_sni: Seq<u8>,
    noise: Seq<u8>,
) -> Option<Seq<u8>> {
    if dpi_enabled && names_tls_port(target) && 1 <= decoy_sni.len() <= MAX_SNI_LEN
        && noise.len() >= DECOY_NOISE_LEN {
        Some(decoy_packet(decoy_sni, noise))
    } else {
        None
    }
}

/// Starts the tunnel session for a CONNECT to `target` whose host is
/// `host`: resolves the route through the cache, and on the direct path
/// prepares the decoy when it applies.
pub fn open_tunnel(
    cache: &mut HostCache,
    proxy_config: &[ProxyConfig],
    host: &str,
    target: &str,
    package: &Package,
    token: Option<&str>,
    dpi_enabled: bool,
    decoy_sni: &str,
    noise: &[u8],
    decoy_ttl: u32,
) -> (r: TunnelSession)
    requires
        old(cache).wf(),
        cache_consistent(old(cache)@, proxy_config@),
    ensures
        final(cache).wf(),
        cache_consistent(final(cache)@, proxy_config@),
        old(cache)@.submap_of(final(cache)@),
        forall|h: Seq<char>| #[trigger]
            final(cache)@.contains_key(h) ==> old(cache)@.contains_key(h) || h == host@,
        no_route(proxy_config@, host@) ==> session_starts(
            r,
            target@,
            None,
            *package,
            token_digest_of(token),
            r.decoy,
            decoy_ttl,
        ) && match direct_decoy(dpi_enabled, target@, decoy_sni.spec_bytes(), noise@) {
            Some(d) => r.decoy matches Some(v) && v@ == d,
            None => r.decoy is None,
        },
        forall|i: int, j: int|
            #[trigger] is_first_match(proxy_config@, host@, i, j) ==> session_starts(
                r,
                target@,
                Some(proxy_config@[i]),
                *package,
                token_digest_of(token),
                None,
                decoy_ttl,
            ),
{
    match find_matching_proxy(cache, proxy_config, host) {
        Some((rule, _filter_name)) => {
            TunnelSession::new(target, Some(rule), package, token, None, decoy_ttl)
        },
        None => {
            let decoy = if decoy_applies(dpi_enabled, target) {
                build_decoy_packet(decoy_sni, noise)
            } else {
                None
            };
            TunnelSession::new(target, None, package, token, decoy, decoy_ttl)
        },
    }
}

} // verus!
