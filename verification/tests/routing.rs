use chimera_node::health_monitor::Protocol;
use chimera_node::socks5::{classify, upstream_speaks_socks5, Endpoint, Socks5Server};

fn create_dummy_server() -> Socks5Server {
    Socks5Server::new(
        9050,
        9051,
        9052,
        9053,
        9054,
        9055,
        9056,
        9057,
        9058,
        "http://1.2.3.4:9090".to_string(),
        "http://5.6.7.8:8085".to_string(),
    )
}

#[test]
fn test_onion_routing() {
    let server = create_dummy_server();
    let addr = server.resolve_upstream("darkmarket.onion");
    assert_eq!(addr.port(), 9051);
}

#[test]
fn test_i2p_routing() {
    let server = create_dummy_server();
    let addr = server.resolve_upstream("site.i2p");
    assert_eq!(addr.port(), 9052);
}

#[test]
fn test_lokinet_routing() {
    let server = create_dummy_server();
    let addr = server.resolve_upstream("service.loki");
    assert_eq!(addr.port(), 9053);
}

#[test]
fn test_nym_routing() {
    let server = create_dummy_server();
    let addr = server.resolve_upstream("service.nym");
    assert_eq!(addr.port(), 9054);
}

#[test]
fn test_ipfs_routing() {
    let server = create_dummy_server();
    let addr = server.resolve_upstream("bafy...ipfs");
    assert_eq!(addr.port(), 9055);
    let addr = server.resolve_upstream("vitalik.eth");
    assert_eq!(addr.port(), 9055);
}

#[test]
fn test_zeronet_routing() {
    let server = create_dummy_server();
    let addr = server.resolve_upstream("play.bit");
    assert_eq!(addr.port(), 9056);
}

#[test]
fn test_freenet_routing() {
    let server = create_dummy_server();
    let addr = server.resolve_upstream("USK@mykey");
    assert_eq!(addr.port(), 9057);
}

#[test]
fn test_gnunet_routing() {
    let server = create_dummy_server();
    let addr = server.resolve_upstream("gnu.org.gnu");
    assert_eq!(addr.port(), 9058);
}

#[test]
fn test_retroshare_routing() {
    let server = create_dummy_server();
    let addr = server.resolve_upstream("retroshare://friend");
    assert_eq!(addr.port(), 9090);
}

#[test]
fn test_tribler_routing() {
    let server = create_dummy_server();
    let addr = server.resolve_upstream("tribler://download");
    assert_eq!(addr.port(), 8085);
}

#[test]
fn test_default_routing() {
    let server = create_dummy_server();
    let addr = server.resolve_upstream("google.com");
    assert_eq!(addr.port(), 9051); // Defaults to Tor
}

#[test]
fn upstreams_are_on_loopback() {
    let server = create_dummy_server();
    let addr = server.resolve_upstream("site.i2p");
    assert_eq!(addr.ip(), (127, 0, 0, 1));
    assert_eq!(addr, Endpoint { ip: (127, 0, 0, 1), port: 9052 });
    assert_eq!(server.listen_port(), 9050);
}

#[test]
fn url_port_is_read_from_the_url() {
    let server = Socks5Server::new(
        1,
        2,
        3,
        4,
        5,
        6,
        7,
        8,
        9,
        "http://10.0.0.1:7777/api".to_string(),
        "https://example.org:4433".to_string(),
    );
    assert_eq!(server.upstream_of(Protocol::RetroShare).port(), 7777);
    assert_eq!(server.upstream_of(Protocol::Tribler).port(), 4433);
}

#[test]
fn url_without_port_falls_back() {
    let server = Socks5Server::new(
        1,
        2,
        3,
        4,
        5,
        6,
        7,
        8,
        9,
        "http://unused".to_string(),
        "not a url".to_string(),
    );
    assert_eq!(server.upstream_of(Protocol::RetroShare).port(), 9090);
    assert_eq!(server.upstream_of(Protocol::Tribler).port(), 8085);
}

#[test]
fn with_ports_uses_defaults_for_missing_ports() {
    let server = Socks5Server::with_ports(1, 2, 3, 4, 5, 6, 7, 8, 9, None, Some(10));
    assert_eq!(server.upstream_of(Protocol::RetroShare).port(), 9090);
    assert_eq!(server.upstream_of(Protocol::Tribler).port(), 10);
    assert_eq!(server.upstream_of(Protocol::Tor).port(), 2);
    assert_eq!(server.upstream_of(Protocol::GnuNet).port(), 9);
}

#[test]
fn first_matching_rule_wins() {
    assert_eq!(classify("retroshare.onion"), Protocol::Tor);
    assert_eq!(classify("tribler.i2p"), Protocol::I2p);
    assert_eq!(classify("USK@key.bit"), Protocol::ZeroNet);
    assert_eq!(classify("SSK@key"), Protocol::Freenet);
    assert_eq!(classify("node.freenet"), Protocol::Freenet);
    assert_eq!(classify("name.zkey"), Protocol::GnuNet);
    assert_eq!(classify("my.retroshare-site.example"), Protocol::RetroShare);
    assert_eq!(classify("retroshare-tribler"), Protocol::RetroShare);
    assert_eq!(classify("x.tribler.y"), Protocol::Tribler);
}

#[test]
fn bare_onion_takes_the_default_route() {
    assert_eq!(classify("onion"), Protocol::Tor);
    assert_eq!(classify("i2p"), Protocol::Tor);
    assert_eq!(classify(""), Protocol::Tor);
}

#[test]
fn matching_is_case_sensitive() {
    assert_eq!(classify("hidden.ONION"), Protocol::Tor);
    assert_eq!(classify("site.I2P"), Protocol::Tor);
    assert_eq!(classify("site.Loki"), Protocol::Tor);
    assert_eq!(classify("usk@abc"), Protocol::Tor);
    assert_eq!(classify("RetroShare"), Protocol::Tor);
}

#[test]
fn routing_is_stable_across_calls() {
    let server = create_dummy_server();
    let first = server.resolve_upstream("site.i2p");
    let _ = server.resolve_upstream("darkmarket.onion");
    let _ = server.resolve_upstream("google.com");
    let second = server.resolve_upstream("site.i2p");
    assert_eq!(first, second);
}

#[test]
fn socks5_upstreams() {
    assert!(upstream_speaks_socks5(Protocol::Tor));
    assert!(upstream_speaks_socks5(Protocol::I2p));
    assert!(upstream_speaks_socks5(Protocol::Lokinet));
    assert!(upstream_speaks_socks5(Protocol::Nym));
    assert!(upstream_speaks_socks5(Protocol::GnuNet));
    assert!(!upstream_speaks_socks5(Protocol::Ipfs));
    assert!(!upstream_speaks_socks5(Protocol::ZeroNet));
    assert!(!upstream_speaks_socks5(Protocol::Freenet));
    assert!(!upstream_speaks_socks5(Protocol::RetroShare));
    assert!(!upstream_speaks_socks5(Protocol::Tribler));
}

#[test]
fn freenet_key_routes_to_freenet_port() {
    let server = create_dummy_server();
    assert_eq!(server.resolve_upstream("USK@abc").port(), 9057);
    assert_eq!(classify("USK@abc"), Protocol::Freenet);
}
