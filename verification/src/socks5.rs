//! The router: which back-end a destination host belongs to, and where that
//! back-end's proxy listens.

use vstd::prelude::*;
use crate::health_monitor::Protocol;
use crate::text::{contains, ends_with, has_infix, has_prefix, has_suffix, starts_with};

verus! {

/// An IPv4 address and a port.
#[derive(Debug, Clone, Copy, PartialEq, Eq)]
pub struct Endpoint {
    pub ip: (u8, u8, u8, u8),
    pub port: u16,
}

/// `port` on the loopback interface.
pub open spec fn loopback(port: u16) -> Endpoint {
    Endpoint { ip: (127, 0, 0, 1), port }
}

impl Endpoint {
    /// `port` on the loopback interface.
    pub fn local(port: u16) -> (r: Endpoint)
        ensures
            r == loopback(port),
    {
        Endpoint { ip: (127, 0, 0, 1), port }
    }

    /// The port.
    pub fn port(&self) -> (r: u16)
        ensures
            r == self.port,
    {
        self.port
    }

    /// The four octets of the address, first to last.
    pub fn ip(&self) -> (r: (u8, u8, u8, u8))
        ensures
            r == self.ip,
    {
        self.ip
    }
}

/// The back-end a host name belongs to. The rules are tried in order and
/// the first that matches decides; matching is lexical and case-sensitive.
/// A host that matches none goes to Tor.
pub open spec fn route(host: Seq<char>) -> Protocol {
    if has_suffix(host, ".onion"@) {
        Protocol::Tor
    } else if has_suffix(host, ".i2p"@) {
        Protocol::I2p
    } else if has_suffix(host, ".loki"@) {
        Protocol::Lokinet
    } else if has_suffix(host, ".nym"@) {
        Protocol::Nym
    } else if has_suffix(host, ".bit"@) {
        Protocol::ZeroNet
    } else if has_suffix(host, ".eth"@) || has_suffix(host, ".ipfs"@) {
        Protocol::Ipfs
    } else if has_prefix(host, "USK@"@) || has_prefix(host, "SSK@"@) || has_suffix(
        host,
        ".freenet"@,
    ) {
        Protocol::Freenet
    } else if has_suffix(host, ".gnu"@) || has_suffix(host, ".zkey"@) {
        Protocol::GnuNet
    } else if has_infix(host, "retroshare"@) {
        Protocol::RetroShare
    } else if has_infix(host, "tribler"@) {
        Protocol::Tribler
    } else {
        Protocol::Tor
    }
}

/// Whether the proxy of back-end `p` expects a SOCKS5 conversation. The
/// others are HTTP gateways and API endpoints that take the client's bytes
/// as they come.
pub open spec fn speaks_socks5(p: Protocol) -> bool {
    p == Protocol::Tor || p == Protocol::I2p || p == Protocol::Lokinet || p == Protocol::Nym || p
        == Protocol::GnuNet
}

/// Classifies a host name.
pub fn classify(host: &str) -> (p: Protocol)
    ensures
        p == route(host@),
{
    if ends_with(host, ".onion") {
        Protocol::Tor
    } else if ends_with(host, ".i2p") {
        Protocol::I2p
    } else if ends_with(host, ".loki") {
        Protocol::Lokinet
    } else if ends_with(host, ".nym") {
        Protocol::Nym
    } else if ends_with(host, ".bit") {
        Protocol::ZeroNet
    } else if ends_with(host, ".eth") || ends_with(host, ".ipfs") {
        Protocol::Ipfs
    } else if starts_with(host, "USK@") || starts_with(host, "SSK@") || ends_with(
        host,
        ".freenet",
    ) {
        Protocol::Freenet
    } else if ends_with(host, ".gnu") || ends_with(host, ".zkey") {
        Protocol::GnuNet
    } else if contains(host, "retroshare") {
        Protocol::RetroShare
    } else if contains(host, "tribler") {
        Protocol::Tribler
    } else {
        Protocol::Tor
    }
}

/// Tells whether the proxy of `p` expects a SOCKS5 conversation.
pub fn upstream_speaks_socks5(p: Protocol) -> (r: bool)
    ensures
        r == speaks_socks5(p),
{
    match p {
        Protocol::Tor => true,
        Protocol::I2p => true,
        Protocol::Lokinet => true,
        Protocol::Nym => true,
        Protocol::GnuNet => true,
        Protocol::Ipfs => false,
        Protocol::ZeroNet => false,
        Protocol::Freenet => false,
        Protocol::RetroShare => false,
        Protocol::Tribler => false,
    }
}

/// Routing looks at the host name and at nothing else: equal names get the
/// same back-end, whatever was routed before.
pub proof fn route_depends_on_host_only(first: Seq<char>, second: Seq<char>)
    requires
        first == second,
    ensures
        route(first) == route(second),
{
}

/// The port that the URL parser of the `url` crate reports for `text`:
/// `None` where `text` is no absolute URL, where it names no port, and
/// where the port it names is the default of its scheme (80 for `http`,
/// 443 for `https`).
pub uninterp spec fn parsed_url_port(text: Seq<char>) -> Option<u16>;

/// Trusted: `reqwest::Url::parse` followed by `Url::port`. The parser never
/// panics and its answer depends on the text alone; the contract only gives
/// that answer its name.
#[verifier::external_body]
fn url_port(url: &str) -> (r: Option<u16>)
    ensures
        r == parsed_url_port(url@),
{
    match reqwest::Url::parse(url) {
        Ok(u) => u.port(),
        Err(_) => None,
    }
}

/// The port to use when a URL was looked at: the one found in it, else
/// `default`.
pub open spec fn port_or(found: Option<u16>, default: u16) -> u16 {
    match found {
        Some(p) => p,
        None => default,
    }
}

/// The front-end's view of where each back-end's proxy listens.
#[derive(Debug, Clone, Copy, PartialEq, Eq)]
pub struct Socks5Server {
    pub port: u16,
    pub tor_proxy: Endpoint,
    pub i2p_proxy: Endpoint,
    pub lokinet_proxy: Endpoint,
    pub nym_proxy: Endpoint,
    pub ipfs_proxy: Endpoint,
    pub zeronet_proxy: Endpoint,
    pub freenet_proxy: Endpoint,
    pub gnunet_proxy: Endpoint,
    pub retroshare_proxy: Endpoint,
    pub tribler_proxy: Endpoint,
}

impl Socks5Server {
    /// Where the proxy of back-end `p` listens.
    pub open spec fn upstream(self, p: Protocol) -> Endpoint {
        match p {
            Protocol::Tor => self.tor_proxy,
            Protocol::I2p => self.i2p_proxy,
            Protocol::Lokinet => self.lokinet_proxy,
            Protocol::Nym => self.nym_proxy,
            Protocol::Ipfs => self.ipfs_proxy,
            Protocol::ZeroNet => self.zeronet_proxy,
            Protocol::Freenet => self.freenet_proxy,
            Protocol::GnuNet => self.gnunet_proxy,
            Protocol::RetroShare => self.retroshare_proxy,
            Protocol::Tribler => self.tribler_proxy,
        }
    }

    /// A front-end on `port` with every back-end proxy on the loopback
    /// interface at the port given for it.
    pub open spec fn on_ports(
        port: u16,
        tor_port: u16,
        i2p_port: u16,
        lokinet_port: u16,
        nym_port: u16,
        ipfs_port: u16,
        zeronet_port: u16,
        freenet_port: u16,
        gnunet_port: u16,
        retroshare_port: u16,
        tribler_port: u16,
    ) -> Socks5Server {
        Socks5Server {
            port,
            tor_proxy: loopback(tor_port),
            i2p_proxy: loopback(i2p_port),
            lokinet_proxy: loopback(lokinet_port),
            nym_proxy: loopback(nym_port),
            ipfs_proxy: loopback(ipfs_port),
            zeronet_proxy: loopback(zeronet_port),
            freenet_proxy: loopback(freenet_port),
            gnunet_proxy: loopback(gnunet_port),
            retroshare_proxy: loopback(retroshare_port),
            tribler_proxy: loopback(tribler_port),
        }
    }

    /// Builds the table from ports alone. `retroshare_port` and
    /// `tribler_port` are what was found in the two API URLs, if anything
    /// was; RetroShare falls back on 9090 and Tribler on 8085.
    pub fn with_ports(
        port: u16,
        tor_port: u16,
        i2p_port: u16,
        lokinet_port: u16,
        nym_port: u16,
        ipfs_port: u16,
        zeronet_port: u16,
        freenet_port: u16,
        gnunet_port: u16,
        retroshare_port: Option<u16>,
        tribler_port: Option<u16>,
    ) -> (s: Socks5Server)
        ensures
            s == Self::on_ports(
                port,
                tor_port,
                i2p_port,
                lokinet_port,
                nym_port,
                ipfs_port,
                zeronet_port,
                freenet_port,
                gnunet_port,
                port_or(retroshare_port, 9090),
                port_or(tribler_port, 8085),
            ),
    {
        let rs_port: u16 = match retroshare_port {
            Some(p) => p,
            None => 9090,
        };
        let tr_port: u16 = match tribler_port {
            Some(p) => p,
            None => 8085,
        };
        Socks5Server {
            port,
            tor_proxy: Endpoint::local(tor_port),
            i2p_proxy: Endpoint::local(i2p_port),
            lokinet_proxy: Endpoint::local(lokinet_port),
            nym_proxy: Endpoint::local(nym_port),
            ipfs_proxy: Endpoint::local(ipfs_port),
            zeronet_proxy: Endpoint::local(zeronet_port),
            freenet_proxy: Endpoint::local(freenet_port),
            gnunet_proxy: Endpoint::local(gnunet_port),
            retroshare_proxy: Endpoint::local(rs_port),
            tribler_proxy: Endpoint::local(tr_port),
        }
    }

    /// Builds the table. The RetroShare and Tribler proxies are API
    /// endpoints given as URLs; the port is read out of each URL, and where
    /// the URL does not parse or names no port, 9090 and 8085 are used.
    pub fn new(
        port: u16,
        tor_port: u16,
        i2p_port: u16,
        lokinet_port: u16,
        nym_port: u16,
        ipfs_port: u16,
        zeronet_port: u16,
        freenet_port: u16,
        gnunet_port: u16,
        retroshare_url: String,
        tribler_url: String,
    ) -> (s: Socks5Server)
        ensures
            s == Self::on_ports(
                port,
                tor_port,
                i2p_port,
                lokinet_port,
                nym_port,
                ipfs_port,
                zeronet_port,
                freenet_port,
                gnunet_port,
                port_or(parsed_url_port(retroshare_url@), 9090),
                port_or(parsed_url_port(tribler_url@), 8085),
            ),
    {
        let rs_port = url_port(retroshare_url.as_str());
        let tr_port = url_port(tribler_url.as_str());
        Self::with_ports(
            port,
            tor_port,
            i2p_port,
            lokinet_port,
            nym_port,
            ipfs_port,
            zeronet_port,
            freenet_port,
            gnunet_port,
            rs_port,
            tr_port,
        )
    }

    /// The port the front-end listens on.
    pub fn listen_port(&self) -> (r: u16)
        ensures
            r == self.port,
    {
        self.port
    }

    /// Where the proxy of back-end `p` listens.
    pub fn upstream_of(&self, p: Protocol) -> (r: Endpoint)
        ensures
            r == self.upstream(p),
    {
        match p {
            Protocol::Tor => self.tor_proxy,
            Protocol::I2p => self.i2p_proxy,
            Protocol::Lokinet => self.lokinet_proxy,
            Protocol::Nym => self.nym_proxy,
            Protocol::Ipfs => self.ipfs_proxy,
            Protocol::ZeroNet => self.zeronet_proxy,
            Protocol::Freenet => self.freenet_proxy,
            Protocol::GnuNet => self.gnunet_proxy,
            Protocol::RetroShare => self.retroshare_proxy,
            Protocol::Tribler => self.tribler_proxy,
        }
    }

    /// The upstream proxy for a destination host: the proxy of the back-end
    /// that the host name belongs to.
    pub fn resolve_upstream(&self, target_host: &str) -> (r: Endpoint)
        ensures
            r == self.upstream(route(target_host@)),
    {
        self.upstream_of(classify(target_host))
    }
}

} // verus!
