use chimera_node::config::{ChainMode, Settings};
use chimera_node::text::{decimal_string, with_decimal};

#[test]
fn defaults() {
    let s = Settings::new();
    assert_eq!(s.server.host, "127.0.0.1");
    assert_eq!(s.server.port, 9050);
    assert_eq!(s.server.log_level, "info");
    assert_eq!(s.chain_mode, ChainMode::Unchained);
    assert!(s.tor.enabled);
    assert_eq!(s.tor.binary_path, "bin/tor.exe");
    assert_eq!(s.tor.socks_port, 9052);
    assert_eq!(s.tor.control_port, 9051);
    assert_eq!(s.tor.upstream_proxy, None);
    assert_eq!(s.tor.fallback_protocol, None);
    assert!(s.i2p.enabled);
    assert_eq!(s.i2p.binary_path, "bin/i2pd.exe");
    assert_eq!(s.i2p.socks_port, 4447);
    assert_eq!(s.i2p.http_proxy_port, 4444);
    assert!(!s.lokinet.enabled);
    assert_eq!(s.lokinet.binary_path, "bin/lokinet.exe");
    assert_eq!(s.lokinet.dns_port, 1053);
    assert_eq!(s.lokinet.socks_port, 1090);
    assert!(!s.nym.enabled);
    assert_eq!(s.nym.binary_path, "bin/nym-socks5-client.exe");
    assert_eq!(s.nym.socks_port, 1080);
    assert_eq!(s.nym.upstream_provider, None);
    assert!(!s.ipfs.enabled);
    assert_eq!(s.ipfs.api_url, "http://127.0.0.1:5001");
    assert_eq!(s.ipfs.gateway_port, 8080);
    assert!(!s.zeronet.enabled);
    assert_eq!(s.zeronet.proxy_url, "http://127.0.0.1:43110");
    assert_eq!(s.zeronet.port, 43110);
    assert!(!s.freenet.enabled);
    assert_eq!(s.freenet.host, "127.0.0.1");
    assert_eq!(s.freenet.fcp_port, 9481);
    assert_eq!(s.freenet.fproxy_port, 8888);
    assert!(!s.retroshare.enabled);
    assert_eq!(s.retroshare.api_url, "http://127.0.0.1:9090");
    assert_eq!(s.retroshare.user, None);
    assert_eq!(s.retroshare.password, None);
    assert!(!s.gnunet.enabled);
    assert_eq!(s.gnunet.socks_port, 2080);
    assert!(!s.tribler.enabled);
    assert_eq!(s.tribler.api_url, "http://127.0.0.1:8085");
    assert_eq!(s.tribler.api_key, None);
}

#[test]
fn default_chain_mode() {
    assert_eq!(ChainMode::default(), ChainMode::Unchained);
}

#[test]
fn decimal_numerals() {
    assert_eq!(decimal_string(0), "0");
    assert_eq!(decimal_string(7), "7");
    assert_eq!(decimal_string(10), "10");
    assert_eq!(decimal_string(109), "109");
    assert_eq!(decimal_string(9050), "9050");
    assert_eq!(decimal_string(43110), "43110");
    assert_eq!(decimal_string(65535), "65535");
    assert_eq!(with_decimal("127.0.0.1:", 80), "127.0.0.1:80");
    assert_eq!(with_decimal("", 567), "567");
}
