//! The configuration record the core consumes, and its defaults.

use vstd::prelude::*;
use vstd::string::StringExecFns;

verus! {

/// How two back-ends are wired into a multi-hop path.
#[derive(Debug, Clone, Copy, PartialEq, Eq, Structural)]
pub enum ChainMode {
    /// No chaining: every back-end reaches the network on its own.
    Unchained,
    /// Tor reaches the network through Nym.
    TorOverNym,
    /// Nym reaches the network through Tor.
    NymOverTor,
}

impl Default for ChainMode {
    fn default() -> (r: ChainMode)
        ensures
            r == ChainMode::Unchained,
    {
        ChainMode::Unchained
    }
}

#[derive(Debug, Clone, PartialEq, Eq)]
pub struct Settings {
    pub server: ServerSettings,
    pub chain_mode: ChainMode,
    pub tor: TorSettings,
    pub i2p: I2pSettings,
    pub lokinet: LokinetSettings,
    pub nym: NymSettings,
    pub ipfs: IpfsSettings,
    pub zeronet: ZeroNetSettings,
    pub freenet: FreenetSettings,
    pub retroshare: RetroShareSettings,
    pub gnunet: GnunetSettings,
    pub tribler: TriblerSettings,
}

#[derive(Debug, Clone, PartialEq, Eq)]
pub struct ServerSettings {
    pub host: String,
    pub port: u16,
    pub log_level: String,
}

#[derive(Debug, Clone, PartialEq, Eq)]
pub struct TorSettings {
    pub enabled: bool,
    pub binary_path: String,
    pub socks_port: u16,
    pub control_port: u16,
    /// Upstream SOCKS5 proxy to chain through, if any.
    pub upstream_proxy: Option<String>,
    /// Back-end to fall back on while Tor is unhealthy, if any.
    pub fallback_protocol: Option<String>,
}

#[derive(Debug, Clone, PartialEq, Eq)]
pub struct I2pSettings {
    pub enabled: bool,
    pub binary_path: String,
    pub socks_port: u16,
    pub http_proxy_port: u16,
}

#[derive(Debug, Clone, PartialEq, Eq)]
pub struct LokinetSettings {
    pub enabled: bool,
    pub binary_path: String,
    pub dns_port: u16,
    pub socks_port: u16,
}

#[derive(Debug, Clone, PartialEq, Eq)]
pub struct NymSettings {
    pub enabled: bool,
    pub binary_path: String,
    pub socks_port: u16,
    pub upstream_provider: Option<String>,
}

#[derive(Debug, Clone, PartialEq, Eq)]
pub struct IpfsSettings {
    pub enabled: bool,
    pub api_url: String,
    pub gateway_port: u16,
}

#[derive(Debug, Clone, PartialEq, Eq)]
pub struct ZeroNetSettings {
    pub enabled: bool,
    pub proxy_url: String,
    pub port: u16,
}

#[derive(Debug, Clone, PartialEq, Eq)]
pub struct FreenetSettings {
    pub enabled: bool,
    pub host: String,
    pub fcp_port: u16,
    pub fproxy_port: u16,
}

#[derive(Debug, Clone, PartialEq, Eq)]
pub struct RetroShareSettings {
    pub enabled: bool,
    pub api_url: String,
    pub user: Option<String>,
    pub password: Option<String>,
}

#[derive(Debug, Clone, PartialEq, Eq)]
pub struct GnunetSettings {
    pub enabled: bool,
    pub socks_port: u16,
}

#[derive(Debug, Clone, PartialEq, Eq)]
pub struct TriblerSettings {
    pub enabled: bool,
    pub api_url: String,
    pub api_key: Option<String>,
}

/// `s` holds the value every key has when neither a file nor the
/// environment sets it.
pub open spec fn is_default(s: Settings) -> bool {
    &&& s.server.host@ == "127.0.0.1"@
    &&& s.server.port == 9050
    &&& s.server.log_level@ == "info"@
    &&& s.chain_mode == ChainMode::Unchained
    &&& s.tor.enabled
    &&& s.tor.binary_path@ == "bin/tor.exe"@
    &&& s.tor.socks_port == 9052
    &&& s.tor.control_port == 9051
    &&& s.tor.upstream_proxy is None
    &&& s.tor.fallback_protocol is None
    &&& s.i2p.enabled
    &&& s.i2p.binary_path@ == "bin/i2pd.exe"@
    &&& s.i2p.socks_port == 4447
    &&& s.i2p.http_proxy_port == 4444
    &&& !s.lokinet.enabled
    &&& s.lokinet.binary_path@ == "bin/lokinet.exe"@
    &&& s.lokinet.dns_port == 1053
    &&& s.lokinet.socks_port == 1090
    &&& !s.nym.enabled
    &&& s.nym.binary_path@ == "bin/nym-socks5-client.exe"@
    &&& s.nym.socks_port == 1080
    &&& s.nym.upstream_provider is None
    &&& !s.ipfs.enabled
    &&& s.ipfs.api_url@ == "http://127.0.0.1:5001"@
    &&& s.ipfs.gateway_port == 8080
    &&& !s.zeronet.enabled
    &&& s.zeronet.proxy_url@ == "http://127.0.0.1:43110"@
    &&& s.zeronet.port == 43110
    &&& !s.freenet.enabled
    &&& s.freenet.host@ == "127.0.0.1"@
    &&& s.freenet.fcp_port == 9481
    &&& s.freenet.fproxy_port == 8888
    &&& !s.retroshare.enabled
    &&& s.retroshare.api_url@ == "http://127.0.0.1:9090"@
    &&& s.retroshare.user is None
    &&& s.retroshare.password is None
    &&& !s.gnunet.enabled
    &&& s.gnunet.socks_port == 2080
    &&& !s.tribler.enabled
    &&& s.tribler.api_url@ == "http://127.0.0.1:8085"@
    &&& s.tribler.api_key is None
}

impl Settings {
    /// The settings in force when nothing overrides them. A configuration
    /// file and environment overrides are layered on top of these by the
    /// embedding program.
    pub fn new() -> (s: Settings)
        ensures
            is_default(s),
    {
        Settings {
            server: ServerSettings {
                host: String::from_str("127.0.0.1"),
                port: 9050,
                log_level: String::from_str("info"),
            },
            chain_mode: ChainMode::Unchained,
            tor: TorSettings {
                enabled: true,
                binary_path: String::from_str("bin/tor.exe"),
                socks_port: 9052,
                control_port: 9051,
                upstream_proxy: None,
                fallback_protocol: None,
            },
            i2p: I2pSettings {
                enabled: true,
                binary_path: String::from_str("bin/i2pd.exe"),
                socks_port: 4447,
                http_proxy_port: 4444,
            },
            lokinet: LokinetSettings {
                enabled: false,
                binary_path: String::from_str("bin/lokinet.exe"),
                dns_port: 1053,
                socks_port: 1090,
            },
            nym: NymSettings {
                enabled: false,
                binary_path: String::from_str("bin/nym-socks5-client.exe"),
                socks_port: 1080,
                upstream_provider: None,
            },
            ipfs: IpfsSettings {
                enabled: false,
                api_url: String::from_str("http://127.0.0.1:5001"),
                gateway_port: 8080,
            },
            zeronet: ZeroNetSettings {
                enabled: false,
                proxy_url: String::from_str("http://127.0.0.1:43110"),
                port: 43110,
            },
            freenet: FreenetSettings {
                enabled: false,
                host: String::from_str("127.0.0.1"),
                fcp_port: 9481,
                fproxy_port: 8888,
            },
            retroshare: RetroShareSettings {
                enabled: false,
                api_url: String::from_str("http://127.0.0.1:9090"),
                user: None,
                password: None,
            },
            gnunet: GnunetSettings { enabled: false, socks_port: 2080 },
            tribler: TriblerSettings {
                enabled: false,
                api_url: String::from_str("http://127.0.0.1:8085"),
                api_key: None,
            },
        }
    }
}

} // verus!
