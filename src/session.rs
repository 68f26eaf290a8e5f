use vstd::prelude::*;
use vstd::string::{StrSliceExecFns, StringSliceAdditionalSpecFns};
use vstd::utf8::encode_utf8;

use crate::config::{Package, ProxyConfig};
use crate::handshake::{
    build_connect_request, connect_request, parse_scheme, scheme_of, sha256_hex, to_sha256,
    upstream_accepts, is_upstream_accepted, ProxyScheme,
};

verus! {

/// Bound on dialing a backend or an upstream proxy.
pub const CONNECT_TIMEOUT_SECS: u64 = 30;

/// Bound on the TLS handshake with an upstream proxy.
pub const TLS_TIMEOUT_SECS: u64 = 30;

/// Bound on waiting for the upstream proxy's reply to CONNECT.
pub const REPLY_TIMEOUT_SECS: u64 = 5;

/// Most bytes read of the upstream proxy's reply.
pub const REPLY_BUFFER_LEN: usize = 1024;

/// Bound on a whole relay session.
pub const RELAY_TIMEOUT_SECS: u64 = 30;

/// Most bytes read from the client in one read while peeking at its hello.
pub const HELLO_BUFFER_LEN: usize = 1024;

/// Client bytes needed before a decoy is sent.
pub const HELLO_MIN_LEN: usize = 5;

/// Time-to-live restored on the backend socket after a decoy.
pub const DEFAULT_TTL: u32 = 64;

/// Pause between the decoy and the client's real hello.
pub const DECOY_PAUSE_MILLIS: u64 = 500;

/// Why a tunnel session ended without success.
#[derive(Debug, Clone, Copy, PartialEq, Eq, Structural)]
pub enum TunnelError {
    ConnectTimeout,
    ConnectRefused,
    TlsHandshakeFailed,
    UpstreamRejected,
    UpgradeFailed,
    ConnectionClosedEarly,
    UnsupportedScheme,
    DpiSocketOptionFailed,
    RelayTimeout,
    RelayIoError,
}

/// Where a tunnel session stands.
#[derive(Debug, Clone, Copy, PartialEq, Eq, Structural)]
pub enum Stage {
    /// Waiting for the client connection to switch to raw bytes.
    Upgrading,
    /// Dialing the target itself.
    DirectConnecting,
    /// Collecting the first bytes the client sends.
    ReadingClientHello,
    /// Lowering the backend socket's time-to-live for the decoy.
    LoweringTtl,
    /// Writing the decoy packet.
    SendingDecoy,
    /// Restoring the time-to-live; `sent` tells whether the decoy went out.
    RestoringTtl { sent: bool },
    /// Waiting between the decoy and the real hello.
    Pausing,
    /// Writing the collected client bytes to the backend.
    ForwardingHello,
    /// Dialing the upstream proxy.
    ProxyConnecting,
    /// Establishing TLS with the upstream proxy.
    TlsHandshaking,
    /// Writing the CONNECT request to the upstream proxy.
    SendingConnect,
    /// Waiting for the upstream proxy's reply.
    AwaitingReply,
    /// Copying bytes both ways.
    Relaying,
    /// Closing the write half of the upstream connection.
    ShuttingDown,
    /// Ended normally.
    Closed,
    /// Ended with an error.
    Failed(TunnelError),
}

/// What happened when the last action was carried out.
#[derive(Debug, Clone)]
pub enum Event {
    Upgraded,
    UpgradeFailed,
    Connected,
    ConnectTimedOut,
    ConnectFailed,
    TlsEstablished,
    TlsFailed,
    Wrote,
    WriteFailed,
    Received(Vec<u8>),
    ReadTimedOut,
    ReadFailed,
    TtlSet,
    TtlFailed,
    Paused,
    Relayed { client_to_server: u64, server_to_client: u64 },
    RelayTimedOut,
    RelayFailed,
    ShutDown,
}

/// The next thing to do for a session.
#[derive(Debug, Clone, Copy, PartialEq, Eq, Structural)]
pub enum Action {
    /// Wait for the client connection to be upgraded.
    Upgrade,
    /// Dial the upstream proxy if there is one, else the target.
    Connect { timeout_secs: u64 },
    /// Start TLS on the upstream connection, naming the upstream host.
    TlsHandshake { timeout_secs: u64 },
    /// Read from the client.
    ReadClient { max: usize },
    /// Set the backend socket's time-to-live.
    SetTtl { ttl: u32 },
    /// Write `pending()` to the backend or upstream connection.
    Send,
    /// Sleep.
    Pause { millis: u64 },
    /// Read the upstream proxy's reply.
    ReadUpstream { max: usize, timeout_secs: u64 },
    /// Copy bytes both ways between client and backend or upstream.
    Relay { timeout_secs: u64 },
    /// Shut down the write half of the upstream connection.
    ShutdownUpstream,
    /// The session is over; see its stage.
    Finish,
}

/// The upstream proxy a tunnel goes through.
#[derive(Debug, Clone)]
pub struct Upstream {
    pub host: String,
    pub port: u16,
    pub tls: bool,
    pub request: String,
}

/// One CONNECT tunnel, from upgrade to close.
#[derive(Debug, Clone)]
pub struct TunnelSession {
    pub stage: Stage,
    /// The authority the client asked for, `host:port`.
    pub target: String,
    pub upstream: Option<Upstream>,
    /// Decoy packet to send before the client's hello on a direct path.
    pub decoy: Option<Vec<u8>>,
    pub decoy_ttl: u32,
    /// Client bytes collected before the decoy.
    pub hello: Vec<u8>,
    /// Bytes copied client to server and server to client.
    pub transferred: Option<(u64, u64)>,
}

/// The stage after `e` happens in session `s`. Events that do not belong
/// to the stage leave it unchanged; a closed or failed session stays so.
pub open spec fn next_stage(s: TunnelSession, e: Event) -> Stage {
    match s.stage {
        Stage::Upgrading => match e {
            Event::Upgraded => if s.upstream is Some {
                Stage::ProxyConnecting
            } else {
                Stage::DirectConnecting
            },
            Event::UpgradeFailed => Stage::Failed(TunnelError::UpgradeFailed),
            _ => s.stage,
        },
        Stage::DirectConnecting => match e {
            Event::Connected => if s.decoy is Some {
                Stage::ReadingClientHello
            } else {
                Stage::Relaying
            },
            Event::ConnectTimedOut => Stage::Failed(TunnelError::ConnectTimeout),
            Event::ConnectFailed => Stage::Failed(TunnelError::ConnectRefused),
            _ => s.stage,
        },
        Stage::ReadingClientHello => match e {
            Event::Received(b) => if b@.len() == 0 {
                Stage::Failed(TunnelError::ConnectionClosedEarly)
            } else if s.hello@.len() + b@.len() >= HELLO_MIN_LEN {
                Stage::LoweringTtl
            } else {
                Stage::ReadingClientHello
            },
            Event::ReadFailed => Stage::Failed(TunnelError::RelayIoError),
            _ => s.stage,
        },
        Stage::LoweringTtl => match e {
            Event::TtlSet => Stage::SendingDecoy,
            Event::TtlFailed => Stage::Failed(TunnelError::DpiSocketOptionFailed),
            _ => s.stage,
        },
        Stage::SendingDecoy => match e {
            Event::Wrote => Stage::RestoringTtl { sent: true },
            Event::WriteFailed => Stage::RestoringTtl { sent: false },
            _ => s.stage,
        },
        Stage::RestoringTtl { sent } => match e {
            Event::TtlSet => if sent {
                Stage::Pausing
            } else {
                Stage::Failed(TunnelError::RelayIoError)
            },
            Event::TtlFailed => Stage::Failed(TunnelError::DpiSocketOptionFailed),
            _ => s.stage,
        },
        Stage::Pausing => match e {
            Event::Paused => Stage::ForwardingHello,
            _ => s.stage,
        },
        Stage::ForwardingHello => match e {
            Event::Wrote => Stage::Relaying,
            Event::WriteFailed => Stage::Failed(TunnelError::RelayIoError),
            _ => s.stage,
        },
        Stage::ProxyConnecting => match e {
            Event::Connected => if s.upstream matches Some(u) && u.tls {
                Stage::TlsHandshaking
            } else {
                Stage::SendingConnect
            },
            Event::ConnectTimedOut => Stage::Failed(TunnelError::ConnectTimeout),
            Event::ConnectFailed => Stage::Failed(TunnelError::ConnectRefused),
            _ => s.stage,
        },
        Stage::TlsHandshaking => match e {
            Event::TlsEstablished => Stage::SendingConnect,
            Event::TlsFailed => Stage::Failed(TunnelError::TlsHandshakeFailed),
            _ => s.stage,
        },
        Stage::SendingConnect => match e {
            Event::Wrote => Stage::AwaitingReply,
            Event::WriteFailed => Stage::Failed(TunnelError::RelayIoError),
            _ => s.stage,
        },
        Stage::AwaitingReply => match e {
            Event::Received(b) => if upstream_accepts(b@) {
                Stage::Relaying
            } else {
                Stage::Failed(TunnelError::UpstreamRejected)
            },
            Event::ReadTimedOut => Stage::Failed(TunnelError::UpstreamRejected),
            Event::ReadFailed => Stage::Failed(TunnelError::UpstreamRejected),
            _ => s.stage,
        },
        Stage::Relaying => match e {
            Event::Relayed { .. } => if s.upstream is Some {
                Stage::ShuttingDown
            } else {
                Stage::Closed
            },
            Event::RelayTimedOut => Stage::Failed(TunnelError::RelayTimeout),
            Event::RelayFailed => Stage::Failed(TunnelError::RelayIoError),
            _ => s.stage,
        },
        Stage::ShuttingDown => match e {
            Event::ShutDown => Stage::Closed,
            _ => s.stage,
        },
        Stage::Closed => s.stage,
        Stage::Failed(_) => s.stage,
    }
}

/// The action a session in stage `stage` asks for.
pub open spec fn action_for(stage: Stage, decoy_ttl: u32) -> Action {
    match stage {
        Stage::Upgrading => Action::Upgrade,
        Stage::DirectConnecting => Action::Connect { timeout_secs: CONNECT_TIMEOUT_SECS },
        Stage::ProxyConnecting => Action::Connect { timeout_secs: CONNECT_TIMEOUT_SECS },
        Stage::ReadingClientHello => Action::ReadClient { max: HELLO_BUFFER_LEN },
        Stage::LoweringTtl => Action::SetTtl { ttl: decoy_ttl },
        Stage::RestoringTtl { .. } => Action::SetTtl { ttl: DEFAULT_TTL },
        Stage::SendingDecoy => Action::Send,
        Stage::ForwardingHello => Action::Send,
        Stage::SendingConnect => Action::Send,
        Stage::Pausing => Action::Pause { millis: DECOY_PAUSE_MILLIS },
        Stage::TlsHandshaking => Action::TlsHandshake { timeout_secs: TLS_TIMEOUT_SECS },
        Stage::AwaitingReply => Action::ReadUpstream {
            max: REPLY_BUFFER_LEN,
            timeout_secs: REPLY_TIMEOUT_SECS,
        },
        Stage::Relaying => Action::Relay { timeout_secs: RELAY_TIMEOUT_SECS },
        Stage::ShuttingDown => Action::ShutdownUpstream,
        Stage::Closed => Action::Finish,
        Stage::Failed(_) => Action::Finish,
    }
}

/// The target authority names port 443, the port of TLS traffic.
pub open spec fn names_tls_port(t: Seq<char>) -> bool {
    t.len() >= 4 && t[t.len() - 4] == ':' && t[t.len() - 3] == '4' && t[t.len() - 2] == '4'
        && t[t.len() - 1] == '3'
}

/// Whether a direct tunnel to `target` is preceded by a decoy: only when
/// decoys are enabled and the target is on port 443.
pub fn decoy_applies(dpi_enabled: bool, target: &str) -> (r: bool)
    ensures
        r == (dpi_enabled && names_tls_port(target@)),
{
    if !dpi_enabled {
        return false;
    }
    let n = target.unicode_len();
    if n < 4 {
        return false;
    }
    target.get_char(n - 4) == ':' && target.get_char(n - 3) == '4' && target.get_char(n - 2)
        == '4' && target.get_char(n - 1) == '3'
}

/// The digest sent for a secret token.
pub open spec fn token_digest_of(token: Option<&str>) -> Option<Seq<char>> {
    match token {
        Some(t) => Some(sha256_hex(t.spec_bytes())),
        None => None,
    }
}

/// Appends the bytes of `src` to `dst`.
fn append_bytes(dst: &mut Vec<u8>, src: &Vec<u8>)
    ensures
        final(dst)@ == old(dst)@ + src@,
{
    let ghost before = dst@;
    let mut i: usize = 0;
    while i < src.len()
        invariant
            0 <= i <= src@.len(),
            dst@ =~= before + src@.subrange(0, i as int),
        decreases src@.len() - i,
    {
        dst.push(src[i]);
        i += 1;
        assert(dst@ =~= before + src@.subrange(0, i as int));
    }
    assert(src@.subrange(0, i as int) =~= src@);
}

/// `r` is a fresh session for a CONNECT to `target`: through the proxy rule
/// `route` if there is one (or failed at once if its scheme is neither HTTP
/// nor HTTPS), else direct with the given decoy.
pub open spec fn session_starts(
    r: TunnelSession,
    target: Seq<char>,
    route: Option<ProxyConfig>,
    package: Package,
    token_digest: Option<Seq<char>>,
    decoy: Option<Vec<u8>>,
    decoy_ttl: u32,
) -> bool {
    &&& r.target@ == target
    &&& r.decoy == decoy
    &&& r.decoy_ttl == decoy_ttl
    &&& r.hello@.len() == 0
    &&& r.transferred is None
    &&& match route {
        None => r.upstream is None && r.stage == Stage::Upgrading,
        Some(rule) => match scheme_of(rule.scheme@) {
            None => r.upstream is None && r.stage == Stage::Failed(TunnelError::UnsupportedScheme),
            Some(scheme) => r.stage == Stage::Upgrading && match r.upstream {
                Some(u) => u.host@ == rule.host@ && u.port == rule.port && u.tls == (scheme
                    == ProxyScheme::Https) && u.request@ == connect_request(
                    target,
                    scheme,
                    rule.auth.credentials,
                    package,
                    token_digest,
                ),
                None => false,
            },
        },
    }
}

impl TunnelSession {
    /// A session for a CONNECT to `target`, through the proxy rule `route`
    /// if there is one, else direct (with `decoy` sent first if given). A
    /// rule whose scheme is neither HTTP nor HTTPS ends the session at once.
    pub fn new(
        target: &str,
        route: Option<&ProxyConfig>,
        package: &Package,
        token: Option<&str>,
        decoy: Option<Vec<u8>>,
        decoy_ttl: u32,
    ) -> (r: TunnelSession)
        ensures
            session_starts(
                r,
                target@,
                match route {
                    Some(rule) => Some(*rule),
                    None => None,
                },
                *package,
                token_digest_of(token),
                decoy,
                decoy_ttl,
            ),
    {
        let mut stage = Stage::Upgrading;
        let upstream = match route {
            None => None,
            Some(rule) => match parse_scheme(rule.scheme.as_str()) {
                None => {
                    stage = Stage::Failed(TunnelError::UnsupportedScheme);
                    None
                },
                Some(scheme) => {
                    let digest = match token {
                        Some(t) => Some(to_sha256(t)),
                        None => None,
                    };
                    let request = match &digest {
                        Some(d) => build_connect_request(
                            target,
                            scheme,
                            &rule.auth.credentials,
                            package,
                            Some(d.as_str()),
                        ),
                        None => build_connect_request(
                            target,
                            scheme,
                            &rule.auth.credentials,
                            package,
                            None,
                        ),
                    };
                    Some(
                        Upstream {
                            host: rule.host.clone(),
                            port: rule.port,
                            tls: scheme == ProxyScheme::Https,
                            request,
                        },
                    )
                },
            },
        };
        TunnelSession {
            stage,
            target: String::from_str(target),
            upstream,
            decoy,
            decoy_ttl,
            hello: Vec::new(),
            transferred: None,
        }
    }

    /// The action this session asks for now.
    pub fn action(&self) -> (a: Action)
        ensures
            a == action_for(self.stage, self.decoy_ttl),
    {
        match self.stage {
            Stage::Upgrading => Action::Upgrade,
            Stage::DirectConnecting => Action::Connect { timeout_secs: CONNECT_TIMEOUT_SECS },
            Stage::ProxyConnecting => Action::Connect { timeout_secs: CONNECT_TIMEOUT_SECS },
            Stage::ReadingClientHello => Action::ReadClient { max: HELLO_BUFFER_LEN },
            Stage::LoweringTtl => Action::SetTtl { ttl: self.decoy_ttl },
            Stage::RestoringTtl { .. } => Action::SetTtl { ttl: DEFAULT_TTL },
            Stage::SendingDecoy => Action::Send,
            Stage::ForwardingHello => Action::Send,
            Stage::SendingConnect => Action::Send,
            Stage::Pausing => Action::Pause { millis: DECOY_PAUSE_MILLIS },
            Stage::TlsHandshaking => Action::TlsHandshake { timeout_secs: TLS_TIMEOUT_SECS },
            Stage::AwaitingReply => Action::ReadUpstream {
                max: REPLY_BUFFER_LEN,
                timeout_secs: REPLY_TIMEOUT_SECS,
            },
            Stage::Relaying => Action::Relay { timeout_secs: RELAY_TIMEOUT_SECS },
            Stage::ShuttingDown => Action::ShutdownUpstream,
            Stage::Closed => Action::Finish,
            Stage::Failed(_) => Action::Finish,
        }
    }

    /// Advances the session by what happened, and returns the next action.
    pub fn step(&mut self, e: Event) -> (a: Action)
        ensures
            final(self).stage == next_stage(*old(self), e),
            final(self).hello@ == match e {
                Event::Received(b) => if old(self).stage == Stage::ReadingClientHello {
                    old(self).hello@ + b@
                } else {
                    old(self).hello@
                },
                _ => old(self).hello@,
            },
            final(self).transferred == match e {
                Event::Relayed { client_to_server, server_to_client } => if old(self).stage
                    == Stage::Relaying {
                    Some((client_to_server, server_to_client))
                } else {
                    old(self).transferred
                },
                _ => old(self).transferred,
            },
            final(self).target == old(self).target,
            final(self).upstream == old(self).upstream,
            final(self).decoy == old(self).decoy,
            final(self).decoy_ttl == old(self).decoy_ttl,
            a == action_for(final(self).stage, final(self).decoy_ttl),
    {
        let via_proxy = self.upstream.is_some();
        let next = match self.stage {
            Stage::Upgrading => match e {
                Event::Upgraded => if via_proxy {
                    Stage::ProxyConnecting
                } else {
                    Stage::DirectConnecting
                },
                Event::UpgradeFailed => Stage::Failed(TunnelError::UpgradeFailed),
                _ => self.stage,
            },
            Stage::DirectConnecting => match e {
                Event::Connected => if self.decoy.is_some() {
                    Stage::ReadingClientHello
                } else {
                    Stage::Relaying
                },
                Event::ConnectTimedOut => Stage::Failed(TunnelError::ConnectTimeout),
                Event::ConnectFailed => Stage::Failed(TunnelError::ConnectRefused),
                _ => self.stage,
            },
            Stage::ReadingClientHello => match e {
                Event::Received(b) => {
                    if b.len() == 0 {
                        assert(self.hello@ + b@ =~= self.hello@);
                        Stage::Failed(TunnelError::ConnectionClosedEarly)
                    } else {
                        append_bytes(&mut self.hello, &b);
                        if self.hello.len() >= HELLO_MIN_LEN {
                            Stage::LoweringTtl
                        } else {
                            Stage::ReadingClientHello
                        }
                    }
                },
                Event::ReadFailed => Stage::Failed(TunnelError::RelayIoError),
                _ => self.stage,
            },
            Stage::LoweringTtl => match e {
                Event::TtlSet => Stage::SendingDecoy,
                Event::TtlFailed => Stage::Failed(TunnelError::DpiSocketOptionFailed),
                _ => self.stage,
            },
            Stage::SendingDecoy => match e {
                Event::Wrote => Stage::RestoringTtl { sent: true },
                Event::WriteFailed => Stage::RestoringTtl { sent: false },
                _ => self.stage,
            },
            Stage::RestoringTtl { sent } => match e {
                Event::TtlSet => if sent {
                    Stage::Pausing
                } else {
                    Stage::Failed(TunnelError::RelayIoError)
                },
                Event::TtlFailed => Stage::Failed(TunnelError::DpiSocketOptionFailed),
                _ => self.stage,
            },
            Stage::Pausing => match e {
                Event::Paused => Stage::ForwardingHello,
                _ => self.stage,
            },
            Stage::ForwardingHello => match e {
                Event::Wrote => Stage::Relaying,
                Event::WriteFailed => Stage::Failed(TunnelError::RelayIoError),
                _ => self.stage,
            },
            Stage::ProxyConnecting => match e {
                Event::Connected => {
                    let tls = match &self.upstream {
                        Some(u) => u.tls,
                        None => false,
                    };
                    if tls {
                        Stage::TlsHandshaking
                    } else {
                        Stage::SendingConnect
                    }
                },
                Event::ConnectTimedOut => Stage::Failed(TunnelError::ConnectTimeout),
                Event::ConnectFailed => Stage::Failed(TunnelError::ConnectRefused),
                _ => self.stage,
            },
            Stage::TlsHandshaking => match e {
                Event::TlsEstablished => Stage::SendingConnect,
                Event::TlsFailed => Stage::Failed(TunnelError::TlsHandshakeFailed),
                _ => self.stage,
            },
            Stage::SendingConnect => match e {
                Event::Wrote => Stage::AwaitingReply,
                Event::WriteFailed => Stage::Failed(TunnelError::RelayIoError),
                _ => self.stage,
            },
            Stage::AwaitingReply => match e {
                Event::Received(b) => if is_upstream_accepted(b.as_slice()) {
                    Stage::Relaying
                } else {
                    Stage::Failed(TunnelError::UpstreamRejected)
                },
                Event::ReadTimedOut => Stage::Failed(TunnelError::UpstreamRejected),
                Event::ReadFailed => Stage::Failed(TunnelError::UpstreamRejected),
                _ => self.stage,
            },
            Stage::Relaying => match e {
                Event::Relayed { client_to_server, server_to_client } => {
                    self.transferred = Some((client_to_server, server_to_client));
                    if via_proxy {
                        Stage::ShuttingDown
                    } else {
                        Stage::Closed
                    }
                },
                Event::RelayTimedOut => Stage::Failed(TunnelError::RelayTimeout),
                Event::RelayFailed => Stage::Failed(TunnelError::RelayIoError),
                _ => self.stage,
            },
            Stage::ShuttingDown => match e {
                Event::ShutDown => Stage::Closed,
                _ => self.stage,
            },
            Stage::Closed => self.stage,
            Stage::Failed(_) => self.stage,
        };
        self.stage = next;
        self.action()
    }

    /// The bytes a `Send` action writes: the decoy, the collected client
    /// bytes, or the CONNECT request, by stage; nothing in other stages.
    pub fn pending(&self) -> (r: &[u8])
        ensures
            r@ == match self.stage {
                Stage::SendingDecoy => match self.decoy {
                    Some(d) => d@,
                    None => Seq::empty(),
                },
                Stage::ForwardingHello => self.hello@,
                Stage::SendingConnect => match self.upstream {
                    Some(u) => encode_utf8(u.request@),
                    None => Seq::empty(),
                },
                _ => Seq::empty(),
            },
    {
        let nothing: &[u8] = &[];
        assert(nothing@ =~= Seq::<u8>::empty());
        match self.stage {
            Stage::SendingDecoy => match &self.decoy {
                Some(d) => d.as_slice(),
                None => nothing,
            },
            Stage::ForwardingHello => self.hello.as_slice(),
            Stage::SendingConnect => match &self.upstream {
                Some(u) => u.request.as_str().as_bytes(),
                None => nothing,
            },
            _ => nothing,
        }
    }
}

/// A closed or failed session stays as it is whatever happens, and asks
/// for nothing but to finish.
pub proof fn lemma_ended_is_final(s: TunnelSession, e: Event)
    requires
        s.stage == Stage::Closed || s.stage is Failed,
    ensures
        next_stage(s, e) == s.stage,
        action_for(s.stage, s.decoy_ttl) == Action::Finish,
{
}

/// An upstream reply that does not start with `HTTP/1.1 200`, or none in
/// time, fails the tunnel as rejected, and from then on the session never
/// relays: every later event leaves it failed and asking only to finish.
pub proof fn lemma_rejected_reply_never_relays(s: TunnelSession, e: Event)
    requires
        s.stage == Stage::AwaitingReply,
        match e {
            Event::Received(b) => !upstream_accepts(b@),
            Event::ReadTimedOut => true,
            Event::ReadFailed => true,
            _ => false,
        },
    ensures
        next_stage(s, e) == Stage::Failed(TunnelError::UpstreamRejected),
        forall|t: TunnelSession, e2: Event|
            t.stage == Stage::Failed(TunnelError::UpstreamRejected) ==> #[trigger] next_stage(t, e2)
                == t.stage && action_for(t.stage, t.decoy_ttl) == Action::Finish,
{
}

/// Dialing, directly or to an upstream proxy, is bounded by thirty seconds,
/// and a dial that runs past it ends the session with `ConnectTimeout`.
pub proof fn lemma_connect_timeout(s: TunnelSession)
    requires
        s.stage == Stage::DirectConnecting || s.stage == Stage::ProxyConnecting,
    ensures
        action_for(s.stage, s.decoy_ttl) == (Action::Connect { timeout_secs: 30 }),
        next_stage(s, Event::ConnectTimedOut) == Stage::Failed(TunnelError::ConnectTimeout),
        action_for(Stage::Failed(TunnelError::ConnectTimeout), s.decoy_ttl) == Action::Finish,
{
}

} // verus!
