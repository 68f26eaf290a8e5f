use vstd::prelude::*;

verus! {

/// Whether the system proxy is switched on or off.
#[derive(Debug, Clone, Copy, PartialEq, Eq, Structural)]
pub enum ProxyState {
    On,
    Off,
}

/// The system proxy settings of one network interface.
#[derive(Debug, Clone)]
pub struct SystemProxy {
    pub interface: String,
    pub server: String,
    pub port: u16,
}

/// The system proxy settings of a named interface.
#[derive(Debug, Clone)]
pub struct Proxy {
    pub interface: String,
    pub server: String,
    pub port: u16,
}

/// The character of a decimal digit.
pub open spec fn digit_char(d: nat) -> char {
    (48 + d) as char
}

/// Decimal text of a number, without leading zeros.
pub open spec fn decimal(n: nat) -> Seq<char>
    decreases n,
{
    if n < 10 {
        seq![digit_char(n)]
    } else {
        decimal(n / 10) + seq![digit_char(n % 10)]
    }
}

/// Relies on `String::push`: appends one character.
#[verifier::external_body]
fn push_char(s: &mut String, c: char)
    ensures
        final(s)@ == old(s)@.push(c),
{
    s.push(c);
}

/// Appends the decimal text of `n`.
fn push_decimal(s: &mut String, n: u16)
    ensures
        final(s)@ == old(s)@ + decimal(n as nat),
    decreases n,
{
    let ghost start = s@;
    if n >= 10 {
        push_decimal(s, n / 10);
    }
    let d = (48 + n % 10) as u8;
    push_char(s, d as char);
    assert(s@ =~= start + decimal(n as nat));
}

/// The two proxy kinds that are configured: plain web and secure web.
pub open spec fn proxy_kinds() -> Seq<Seq<char>> {
    seq!["webproxy"@, "securewebproxy"@]
}

/// Arguments that point proxy kind `kind` of `interface` at `server:port`.
pub open spec fn set_command(
    kind: Seq<char>,
    interface: Seq<char>,
    server: Seq<char>,
    port: u16,
) -> Seq<Seq<char>> {
    seq!["-set"@ + kind, interface, server, decimal(port as nat)]
}

/// The word for a proxy state.
pub open spec fn state_word(state: ProxyState) -> Seq<char> {
    match state {
        ProxyState::On => "on"@,
        ProxyState::Off => "off"@,
    }
}

/// Arguments that switch proxy kind `kind` of `interface` on or off.
pub open spec fn state_command(
    kind: Seq<char>,
    interface: Seq<char>,
    state: ProxyState,
) -> Seq<Seq<char>> {
    seq!["-set"@ + kind + "state"@, interface, state_word(state)]
}

/// The texts of a list of argument lists.
pub open spec fn command_texts(v: Seq<Vec<String>>) -> Seq<Seq<Seq<char>>> {
    v.map_values(|c: Vec<String>| c@.map_values(|a: String| a@))
}

/// The proxy kinds, in the order they are configured.
fn kinds() -> (r: [&'static str; 2])
    ensures
        r@[0]@ == proxy_kinds()[0],
        r@[1]@ == proxy_kinds()[1],
{
    ["webproxy", "securewebproxy"]
}

/// One argument list per proxy kind pointing it at `server:port`.
fn set_commands(interface: &str, server: &str, port: u16) -> (r: Vec<Vec<String>>)
    ensures
        command_texts(r@) == seq![
            set_command(proxy_kinds()[0], interface@, server@, port),
            set_command(proxy_kinds()[1], interface@, server@, port),
        ],
{
    let ks = kinds();
    let mut r: Vec<Vec<String>> = Vec::new();
    let mut i: usize = 0;
    while i < 2
        invariant
            0 <= i <= 2,
            ks@[0]@ == proxy_kinds()[0],
            ks@[1]@ == proxy_kinds()[1],
            r@.len() == i,
            forall|k: int| 0 <= k < i ==> (#[trigger] r@[k])@.map_values(|a: String| a@)
                == set_command(proxy_kinds()[k], interface@, server@, port),
        decreases 2 - i,
    {
        let mut flag = String::from_str("-set");
        flag.append(ks[i]);
        let mut number = String::new();
        push_decimal(&mut number, port);
        let mut c: Vec<String> = Vec::new();
        c.push(flag);
        c.push(String::from_str(interface));
        c.push(String::from_str(server));
        c.push(number);
        assert(c@.map_values(|a: String| a@) =~= set_command(
            proxy_kinds()[i as int],
            interface@,
            server@,
            port,
        ));
        r.push(c);
        i += 1;
    }
    assert(command_texts(r@) =~= seq![
        set_command(proxy_kinds()[0], interface@, server@, port),
        set_command(proxy_kinds()[1], interface@, server@, port),
    ]);
    r
}

/// One argument list per proxy kind switching it on or off.
fn state_commands(interface: &str, state: ProxyState) -> (r: Vec<Vec<String>>)
    ensures
        command_texts(r@) == seq![
            state_command(proxy_kinds()[0], interface@, state),
            state_command(proxy_kinds()[1], interface@, state),
        ],
{
    let ks = kinds();
    let mut r: Vec<Vec<String>> = Vec::new();
    let mut i: usize = 0;
    while i < 2
        invariant
            0 <= i <= 2,
            ks@[0]@ == proxy_kinds()[0],
            ks@[1]@ == proxy_kinds()[1],
            r@.len() == i,
            forall|k: int| 0 <= k < i ==> (#[trigger] r@[k])@.map_values(|a: String| a@)
                == state_command(proxy_kinds()[k], interface@, state),
        decreases 2 - i,
    {
        let mut flag = String::from_str("-set");
        flag.append(ks[i]);
        flag.append("state");
        let word = match state {
            ProxyState::On => String::from_str("on"),
            ProxyState::Off => String::from_str("off"),
        };
        let mut c: Vec<String> = Vec::new();
        c.push(flag);
        c.push(String::from_str(interface));
        c.push(word);
        assert(c@.map_values(|a: String| a@) =~= state_command(
            proxy_kinds()[i as int],
            interface@,
            state,
        ));
        r.push(c);
        i += 1;
    }
    assert(command_texts(r@) =~= seq![
        state_command(proxy_kinds()[0], interface@, state),
        state_command(proxy_kinds()[1], interface@, state),
    ]);
    r
}

impl SystemProxy {
    /// The settings for the `Wi-Fi` interface pointing at `127.0.0.1:port`.
    pub fn init(port: u16) -> (r: SystemProxy)
        ensures
            r.interface@ == "Wi-Fi"@,
            r.server@ == "127.0.0.1"@,
            r.port == port,
    {
        SystemProxy {
            interface: String::from_str("Wi-Fi"),
            server: String::from_str("127.0.0.1"),
            port,
        }
    }

    /// The proxy kinds this setting covers.
    pub fn get_proxy_types(&self) -> (r: [&'static str; 2])
        ensures
            r@[0]@ == proxy_kinds()[0],
            r@[1]@ == proxy_kinds()[1],
    {
        kinds()
    }

    /// `networksetup` argument lists that point each proxy kind of the
    /// interface at the server and port.
    pub fn set_commands(&self) -> (r: Vec<Vec<String>>)
        ensures
            command_texts(r@) == seq![
                set_command(proxy_kinds()[0], self.interface@, self.server@, self.port),
                set_command(proxy_kinds()[1], self.interface@, self.server@, self.port),
            ],
    {
        set_commands(self.interface.as_str(), self.server.as_str(), self.port)
    }

    /// `networksetup` argument lists that switch each proxy kind of the
    /// interface on or off.
    pub fn set_state_commands(&self, state: ProxyState) -> (r: Vec<Vec<String>>)
        ensures
            command_texts(r@) == seq![
                state_command(proxy_kinds()[0], self.interface@, state),
                state_command(proxy_kinds()[1], self.interface@, state),
            ],
    {
        state_commands(self.interface.as_str(), state)
    }
}

impl Proxy {
    /// The settings for `interface` pointing at `server:port`.
    pub fn init(interface: String, server: &str, port: u16) -> (r: Proxy)
        ensures
            r.interface@ == interface@,
            r.server@ == server@,
            r.port == port,
    {
        Proxy { interface, server: String::from_str(server), port }
    }

    /// The proxy kinds this setting covers.
    pub fn get_proxy_types(&self) -> (r: [&'static str; 2])
        ensures
            r@[0]@ == proxy_kinds()[0],
            r@[1]@ == proxy_kinds()[1],
    {
        kinds()
    }

    /// `networksetup` argument lists that point each proxy kind of the
    /// interface at the server and port.
    pub fn set_commands(&self) -> (r: Vec<Vec<String>>)
        ensures
            command_texts(r@) == seq![
                set_command(proxy_kinds()[0], self.interface@, self.server@, self.port),
                set_command(proxy_kinds()[1], self.interface@, self.server@, self.port),
            ],
    {
        set_commands(self.interface.as_str(), self.server.as_str(), self.port)
    }

    /// `networksetup` argument lists that switch each proxy kind of the
    /// interface on or off.
    pub fn set_state_commands(&self, state: ProxyState) -> (r: Vec<Vec<String>>)
        ensures
            command_texts(r@) == seq![
                state_command(proxy_kinds()[0], self.interface@, state),
                state_command(proxy_kinds()[1], self.interface@, state),
            ],
    {
        state_commands(self.interface.as_str(), state)
    }
}

} // verus!
