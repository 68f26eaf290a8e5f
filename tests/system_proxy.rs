use proxer::config::Opt;
use proxer::system_proxy::{Proxy, ProxyState, SystemProxy};

fn strings(v: &[&str]) -> Vec<String> {
    v.iter().map(|s| s.to_string()).collect()
}

#[test]
fn system_proxy_defaults() {
    let p = SystemProxy::init(5555);
    assert_eq!(p.interface, "Wi-Fi");
    assert_eq!(p.server, "127.0.0.1");
    assert_eq!(p.port, 5555);
    assert_eq!(p.get_proxy_types(), ["webproxy", "securewebproxy"]);
}

#[test]
fn set_commands_name_server_and_port() {
    let p = SystemProxy::init(5555);
    assert_eq!(
        p.set_commands(),
        vec![
            strings(&["-setwebproxy", "Wi-Fi", "127.0.0.1", "5555"]),
            strings(&["-setsecurewebproxy", "Wi-Fi", "127.0.0.1", "5555"]),
        ]
    );
}

#[test]
fn state_commands_switch_on_and_off() {
    let p = SystemProxy::init(1);
    assert_eq!(
        p.set_state_commands(ProxyState::On),
        vec![
            strings(&["-setwebproxystate", "Wi-Fi", "on"]),
            strings(&["-setsecurewebproxystate", "Wi-Fi", "on"]),
        ]
    );
    assert_eq!(
        p.set_state_commands(ProxyState::Off),
        vec![
            strings(&["-setwebproxystate", "Wi-Fi", "off"]),
            strings(&["-setsecurewebproxystate", "Wi-Fi", "off"]),
        ]
    );
}

#[test]
fn port_text_edges() {
    let zero = Proxy::init("en0".to_string(), "10.1.1.1", 0);
    assert_eq!(zero.set_commands()[0], strings(&["-setwebproxy", "en0", "10.1.1.1", "0"]));
    let max = Proxy::init("en0".to_string(), "10.1.1.1", 65535);
    assert_eq!(max.set_commands()[1], strings(&["-setsecurewebproxy", "en0", "10.1.1.1", "65535"]));
    let ten = Proxy::init("en0".to_string(), "h", 10);
    assert_eq!(ten.set_commands()[0][3], "10");
}

#[test]
fn listen_port_defaults_to_5555() {
    let mut o = Opt { port: None, config: None, dpi: false, token: None };
    assert_eq!(o.listen_port(), 5555);
    o.port = Some(8000);
    assert_eq!(o.listen_port(), 8000);
}
