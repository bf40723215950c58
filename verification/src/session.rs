//! One SOCKS5 session, from the accepted connection to the splice.
//!
//! A session never touches a socket. It is told what happened (`Event`)
//! and answers with what to do next (`Action`); the embedding program
//! performs the action and reports back. Reads are asked for by exact
//! length, so a session consumes the handshake and not one byte more.

use vstd::prelude::*;
use vstd::string::StringExecFns;
use vstd::utf8::{is_ascii_chars, is_ascii_chars_concat};
use crate::bytes::{append_bytes, be16, copy_range, hi_byte, lo_byte, read_be16, write_be16};
use crate::health_monitor::Protocol;
use crate::socks5::{classify, route, speaks_socks5, upstream_speaks_socks5, Endpoint, Socks5Server};
use crate::text::{
    ascii_bytes, ascii_to_bytes, decimal, decimal_is_digits, decimal_shape, digits_hold_no_word,
    is_digit_or_dot, push_decimal,
};

verus! {

/// The form in which the client named its destination.
#[derive(Debug, Clone, Copy, PartialEq, Eq, Structural)]
pub enum AddrType {
    IPv4,
    Domain,
}

/// Where a session stands.
#[derive(Debug, Clone, Copy, PartialEq, Eq, Structural)]
pub enum Phase {
    /// The connection was accepted; nothing was read yet.
    Accepted,
    /// Waiting for the version and the number of methods.
    GreetingHead,
    /// Waiting for that many method bytes.
    GreetingMethods(u8),
    /// The method selection is on its way to the client.
    MethodSent,
    /// Waiting for version, command, reserved byte and address type.
    RequestHead,
    /// Waiting for four address bytes and the port.
    RequestIPv4,
    /// Waiting for the length of the domain name.
    RequestDomainLen,
    /// Waiting for a domain name of that length and the port.
    RequestDomain(u8),
    /// The upstream connection is being opened.
    Connecting,
    /// The success reply is on its way to the client.
    ReplySent,
    /// The greeting is on its way to the upstream proxy.
    UpstreamGreetingSent,
    /// Waiting for the upstream proxy's method selection.
    UpstreamMethod,
    /// The CONNECT request is on its way to the upstream proxy.
    UpstreamRequestSent,
    /// Waiting for the first four bytes of the upstream reply.
    UpstreamReplyHead,
    /// Waiting for the length of the domain name in the upstream reply.
    UpstreamReplyDomainLen,
    /// Waiting for that many bytes of bound address and port, which are
    /// read and thrown away.
    UpstreamReplyTail(u16),
    /// Bytes flow both ways until one side ends.
    Splicing,
    /// Both sockets are closed.
    Closed,
}

/// What the embedding program reports.
#[derive(Debug, Clone, PartialEq, Eq)]
pub enum Event {
    /// The last action completed and produced no data.
    Done,
    /// The last read completed with exactly these bytes.
    Bytes(Vec<u8>),
    /// The last action failed, or a read came up short.
    Failed,
}

/// What an `Event` says, with byte strings as sequences.
pub enum EventView {
    Done,
    Bytes(Seq<u8>),
    Failed,
}

impl View for Event {
    type V = EventView;

    open spec fn view(&self) -> EventView {
        match self {
            Event::Done => EventView::Done,
            Event::Bytes(b) => EventView::Bytes(b@),
            Event::Failed => EventView::Failed,
        }
    }
}

/// What the embedding program is to do next.
#[derive(Debug, Clone, PartialEq, Eq)]
pub enum Action {
    /// Read exactly this many bytes from the client.
    ReadClient(usize),
    /// Write these bytes to the client.
    WriteClient(Vec<u8>),
    /// Open a TCP connection to this upstream proxy.
    ConnectUpstream(Endpoint),
    /// Write these bytes to the upstream proxy.
    WriteUpstream(Vec<u8>),
    /// Read exactly this many bytes from the upstream proxy.
    ReadUpstream(usize),
    /// Copy bytes in both directions until one side ends.
    Splice,
    /// Close both sockets.
    Close,
}

/// What an `Action` asks for, with byte strings as sequences.
pub enum ActionView {
    ReadClient(usize),
    WriteClient(Seq<u8>),
    ConnectUpstream(Endpoint),
    WriteUpstream(Seq<u8>),
    ReadUpstream(usize),
    Splice,
    Close,
}

impl View for Action {
    type V = ActionView;

    open spec fn view(&self) -> ActionView {
        match self {
            Action::ReadClient(n) => ActionView::ReadClient(*n),
            Action::WriteClient(b) => ActionView::WriteClient(b@),
            Action::ConnectUpstream(e) => ActionView::ConnectUpstream(*e),
            Action::WriteUpstream(b) => ActionView::WriteUpstream(b@),
            Action::ReadUpstream(n) => ActionView::ReadUpstream(*n),
            Action::Splice => ActionView::Splice,
            Action::Close => ActionView::Close,
        }
    }
}

/// The state of one session.
#[derive(Debug, Clone, PartialEq, Eq)]
pub struct Session {
    /// The routing table in force.
    pub server: Socks5Server,
    pub phase: Phase,
    pub addr_type: AddrType,
    /// The destination host as text: the domain name, or the dotted quad.
    pub target_host: String,
    /// The destination host as it is forwarded upstream.
    pub wire_host: Vec<u8>,
    pub target_port: u16,
    /// The back-end chosen for the destination.
    pub backend: Protocol,
}

/// A session with its texts and byte strings as sequences.
pub struct SessionView {
    pub server: Socks5Server,
    pub phase: Phase,
    pub addr_type: AddrType,
    pub target_host: Seq<char>,
    pub wire_host: Seq<u8>,
    pub target_port: u16,
    pub backend: Protocol,
}

impl View for Session {
    type V = SessionView;

    open spec fn view(&self) -> SessionView {
        SessionView {
            server: self.server,
            phase: self.phase,
            addr_type: self.addr_type,
            target_host: self.target_host@,
            wire_host: self.wire_host@,
            target_port: self.target_port,
            backend: self.backend,
        }
    }
}

/// The text that lossy UTF-8 decoding makes of `bytes`: valid sequences
/// decode to their characters and each invalid one to U+FFFD.
pub uninterp spec fn utf8_lossy(bytes: Seq<u8>) -> Seq<char>;

/// Trusted: `String::from_utf8_lossy`, with the result made an owned
/// string. The decoding depends on the bytes alone; the contract only gives
/// its result a name.
#[verifier::external_body]
fn lossy_text(bytes: &[u8]) -> (r: String)
    ensures
        r@ == utf8_lossy(bytes@),
{
    String::from_utf8_lossy(bytes).into_owned()
}

/// The method selection sent to the client: version 5, no authentication.
pub open spec fn method_selection() -> Seq<u8> {
    seq![5u8, 0u8]
}

/// The reply sent to the client once the upstream connection stands:
/// success, bound address 0.0.0.0:0.
pub open spec fn success_reply() -> Seq<u8> {
    seq![5u8, 0u8, 0u8, 1u8, 0u8, 0u8, 0u8, 0u8, 0u8, 0u8]
}

/// The greeting sent to an upstream SOCKS5 proxy: one method, no
/// authentication.
pub open spec fn upstream_greeting() -> Seq<u8> {
    seq![5u8, 1u8, 0u8]
}

/// A CONNECT request for `host` and `port` with the host in domain-name
/// form.
pub open spec fn connect_frame(host: Seq<u8>, port: u16) -> Seq<u8> {
    seq![5u8, 1u8, 0u8, 3u8, host.len() as u8] + host + seq![hi_byte(port), lo_byte(port)]
}

/// The dotted-quad text of an IPv4 address.
pub open spec fn dotted_quad(a: u8, b: u8, c: u8, d: u8) -> Seq<char> {
    decimal(a as nat) + "."@ + decimal(b as nat) + "."@ + decimal(c as nat) + "."@ + decimal(
        d as nat,
    )
}

/// A dotted quad is ASCII and between 7 and 15 characters long.
pub proof fn dotted_quad_shape(a: u8, b: u8, c: u8, d: u8)
    ensures
        is_ascii_chars(dotted_quad(a, b, c, d)),
        7 <= dotted_quad(a, b, c, d).len() <= 15,
{
    reveal_strlit(".");
    decimal_shape(a as nat);
    decimal_shape(b as nat);
    decimal_shape(c as nat);
    decimal_shape(d as nat);
    let dot = "."@;
    assert(is_ascii_chars(dot));
    let s1 = decimal(a as nat) + dot;
    let s2 = s1 + decimal(b as nat);
    let s3 = s2 + dot;
    let s4 = s3 + decimal(c as nat);
    let s5 = s4 + dot;
    let s6 = s5 + decimal(d as nat);
    is_ascii_chars_concat(s1, decimal(a as nat), dot);
    is_ascii_chars_concat(s2, s1, decimal(b as nat));
    is_ascii_chars_concat(s3, s2, dot);
    is_ascii_chars_concat(s4, s3, decimal(c as nat));
    is_ascii_chars_concat(s5, s4, dot);
    is_ascii_chars_concat(s6, s5, decimal(d as nat));
}

/// A dotted quad matches no routing rule: sending an IPv4 destination on
/// the default route is what the rules themselves would do with its text.
pub proof fn dotted_quad_takes_default_route(a: u8, b: u8, c: u8, d: u8)
    ensures
        route(dotted_quad(a, b, c, d)) == Protocol::Tor,
{
    let host = dotted_quad(a, b, c, d);
    reveal_strlit(".");
    decimal_is_digits(a as nat);
    decimal_is_digits(b as nat);
    decimal_is_digits(c as nat);
    decimal_is_digits(d as nat);
    assert forall|i: int| 0 <= i < host.len() implies is_digit_or_dot(#[trigger] host[i]) by {
        let la = decimal(a as nat).len() as int;
        let lb = decimal(b as nat).len() as int;
        let lc = decimal(c as nat).len() as int;
        if i < la {
            assert(host[i] == decimal(a as nat)[i]);
        } else if i == la {
        } else if i < la + 1 + lb {
            assert(host[i] == decimal(b as nat)[i - la - 1]);
        } else if i == la + 1 + lb {
        } else if i < la + 1 + lb + 1 + lc {
            assert(host[i] == decimal(c as nat)[i - la - lb - 2]);
        } else if i == la + 1 + lb + 1 + lc {
        } else {
            assert(host[i] == decimal(d as nat)[i - la - lb - lc - 3]);
        }
    }
    reveal_strlit(".onion");
    reveal_strlit(".i2p");
    reveal_strlit(".loki");
    reveal_strlit(".nym");
    reveal_strlit(".bit");
    reveal_strlit(".eth");
    reveal_strlit(".ipfs");
    reveal_strlit("USK@");
    reveal_strlit("SSK@");
    reveal_strlit(".freenet");
    reveal_strlit(".gnu");
    reveal_strlit(".zkey");
    reveal_strlit("retroshare");
    reveal_strlit("tribler");
    digits_hold_no_word(host, ".onion"@, 1);
    digits_hold_no_word(host, ".i2p"@, 1);
    digits_hold_no_word(host, ".loki"@, 1);
    digits_hold_no_word(host, ".nym"@, 1);
    digits_hold_no_word(host, ".bit"@, 1);
    digits_hold_no_word(host, ".eth"@, 1);
    digits_hold_no_word(host, ".ipfs"@, 1);
    digits_hold_no_word(host, "USK@"@, 0);
    digits_hold_no_word(host, "SSK@"@, 0);
    digits_hold_no_word(host, ".freenet"@, 1);
    digits_hold_no_word(host, ".gnu"@, 1);
    digits_hold_no_word(host, ".zkey"@, 1);
    digits_hold_no_word(host, "retroshare"@, 0);
    digits_hold_no_word(host, "tribler"@, 0);
}

/// Writes an IPv4 address as a dotted quad.
pub fn dotted_quad_string(a: u8, b: u8, c: u8, d: u8) -> (r: String)
    ensures
        r@ == dotted_quad(a, b, c, d),
{
    let mut r = String::new();
    push_decimal(&mut r, a as u16);
    r.append(".");
    push_decimal(&mut r, b as u16);
    r.append(".");
    push_decimal(&mut r, c as u16);
    r.append(".");
    push_decimal(&mut r, d as u16);
    assert(r@ =~= dotted_quad(a, b, c, d));
    r
}

/// Builds the CONNECT request that is forwarded upstream.
pub fn build_connect_frame(host: &Vec<u8>, port: u16) -> (r: Vec<u8>)
    requires
        host.len() <= 255,
    ensures
        r@ == connect_frame(host@, port),
{
    let mut r: Vec<u8> = Vec::new();
    r.push(5);
    r.push(1);
    r.push(0);
    r.push(3);
    r.push(host.len() as u8);
    append_bytes(&mut r, host);
    let (hi, lo) = write_be16(port);
    r.push(hi);
    r.push(lo);
    assert(r@ =~= connect_frame(host@, port));
    r
}

/// The session `s` in phase `phase`, answering with `action`.
pub open spec fn go(s: SessionView, phase: Phase, action: ActionView) -> (SessionView, ActionView) {
    (SessionView { phase, ..s }, action)
}

/// The session `s` closed.
pub open spec fn shut(s: SessionView) -> (SessionView, ActionView) {
    go(s, Phase::Closed, ActionView::Close)
}

/// The session after the request named an IPv4 address: the host is the
/// dotted quad, and an address takes the default route.
pub open spec fn with_ipv4_target(s: SessionView, b: Seq<u8>) -> SessionView {
    SessionView {
        addr_type: AddrType::IPv4,
        target_host: dotted_quad(b[0], b[1], b[2], b[3]),
        wire_host: ascii_bytes(dotted_quad(b[0], b[1], b[2], b[3])),
        target_port: be16(b[4], b[5]),
        backend: Protocol::Tor,
        ..s
    }
}

/// The session after the request named a domain of `n` bytes: the name is
/// decoded leniently for routing and forwarded as it came.
pub open spec fn with_domain_target(s: SessionView, n: int, b: Seq<u8>) -> SessionView {
    SessionView {
        addr_type: AddrType::Domain,
        target_host: utf8_lossy(b.subrange(0, n)),
        wire_host: b.subrange(0, n),
        target_port: be16(b[n], b[n + 1]),
        backend: route(utf8_lossy(b.subrange(0, n))),
        ..s
    }
}

/// What a session does when bytes arrive.
pub open spec fn on_bytes(s: SessionView, b: Seq<u8>) -> (SessionView, ActionView) {
    match s.phase {
        Phase::GreetingHead => {
            if b.len() == 2 && b[0] == 5 && b[1] >= 1 {
                go(s, Phase::GreetingMethods(b[1]), ActionView::ReadClient(b[1] as usize))
            } else {
                shut(s)
            }
        },
        Phase::GreetingMethods(n) => {
            if b.len() == n {
                go(s, Phase::MethodSent, ActionView::WriteClient(method_selection()))
            } else {
                shut(s)
            }
        },
        Phase::RequestHead => {
            if b.len() == 4 && b[0] == 5 && b[1] == 1 && b[3] == 1 {
                go(s, Phase::RequestIPv4, ActionView::ReadClient(6))
            } else if b.len() == 4 && b[0] == 5 && b[1] == 1 && b[3] == 3 {
                go(s, Phase::RequestDomainLen, ActionView::ReadClient(1))
            } else {
                shut(s)
            }
        },
        Phase::RequestIPv4 => {
            if b.len() == 6 {
                let t = with_ipv4_target(s, b);
                go(t, Phase::Connecting, ActionView::ConnectUpstream(t.server.upstream(t.backend)))
            } else {
                shut(s)
            }
        },
        Phase::RequestDomainLen => {
            if b.len() == 1 && b[0] >= 1 {
                go(s, Phase::RequestDomain(b[0]), ActionView::ReadClient((b[0] + 2) as usize))
            } else {
                shut(s)
            }
        },
        Phase::RequestDomain(n) => {
            if n >= 1 && b.len() == n + 2 {
                let t = with_domain_target(s, n as int, b);
                go(t, Phase::Connecting, ActionView::ConnectUpstream(t.server.upstream(t.backend)))
            } else {
                shut(s)
            }
        },
        Phase::UpstreamMethod => {
            if b == method_selection() && s.wire_host.len() <= 255 {
                go(
                    s,
                    Phase::UpstreamRequestSent,
                    ActionView::WriteUpstream(connect_frame(s.wire_host, s.target_port)),
                )
            } else {
                shut(s)
            }
        },
        Phase::UpstreamReplyHead => {
            if b.len() == 4 && b[3] == 1 {
                go(s, Phase::UpstreamReplyTail(6), ActionView::ReadUpstream(6))
            } else if b.len() == 4 && b[3] == 3 {
                go(s, Phase::UpstreamReplyDomainLen, ActionView::ReadUpstream(1))
            } else if b.len() == 4 && b[3] == 4 {
                go(s, Phase::UpstreamReplyTail(18), ActionView::ReadUpstream(18))
            } else {
                shut(s)
            }
        },
        Phase::UpstreamReplyDomainLen => {
            if b.len() == 1 {
                go(
                    s,
                    Phase::UpstreamReplyTail((b[0] + 2) as u16),
                    ActionView::ReadUpstream((b[0] + 2) as usize),
                )
            } else {
                shut(s)
            }
        },
        Phase::UpstreamReplyTail(n) => {
            if b.len() == n {
                go(s, Phase::Splicing, ActionView::Splice)
            } else {
                shut(s)
            }
        },
        _ => shut(s),
    }
}

/// What a session does when the last action completed without data.
pub open spec fn on_done(s: SessionView) -> (SessionView, ActionView) {
    match s.phase {
        Phase::Accepted => go(s, Phase::GreetingHead, ActionView::ReadClient(2)),
        Phase::MethodSent => go(s, Phase::RequestHead, ActionView::ReadClient(4)),
        Phase::Connecting => go(s, Phase::ReplySent, ActionView::WriteClient(success_reply())),
        Phase::ReplySent => {
            if speaks_socks5(s.backend) {
                go(s, Phase::UpstreamGreetingSent, ActionView::WriteUpstream(upstream_greeting()))
            } else {
                go(s, Phase::Splicing, ActionView::Splice)
            }
        },
        Phase::UpstreamGreetingSent => go(s, Phase::UpstreamMethod, ActionView::ReadUpstream(2)),
        Phase::UpstreamRequestSent => go(s, Phase::UpstreamReplyHead, ActionView::ReadUpstream(4)),
        _ => shut(s),
    }
}

/// The transition function of a session: the session after `e`, and the
/// action it answers with. Anything out of turn, malformed or failed closes
/// the session, and a closed session stays closed.
pub open spec fn next(s: SessionView, e: EventView) -> (SessionView, ActionView) {
    match e {
        EventView::Done => on_done(s),
        EventView::Bytes(b) => on_bytes(s, b),
        EventView::Failed => shut(s),
    }
}

impl Session {
    /// A session for a connection that was just accepted.
    pub fn new(server: Socks5Server) -> (r: Session)
        ensures
            r@.server == server,
            r@.phase == Phase::Accepted,
            r@.addr_type == AddrType::Domain,
            r@.target_host == Seq::<char>::empty(),
            r@.wire_host == Seq::<u8>::empty(),
            r@.target_port == 0,
            r@.backend == Protocol::Tor,
    {
        Session {
            server,
            phase: Phase::Accepted,
            addr_type: AddrType::Domain,
            target_host: String::new(),
            wire_host: Vec::new(),
            target_port: 0,
            backend: Protocol::Tor,
        }
    }

    /// The upstream proxy chosen for this session.
    pub fn upstream_endpoint(&self) -> (r: Endpoint)
        ensures
            r == self.server.upstream(self.backend),
    {
        self.server.upstream_of(self.backend)
    }

    /// Whether the chosen upstream proxy expects a SOCKS5 conversation.
    pub fn upstream_is_socks5(&self) -> (r: bool)
        ensures
            r == speaks_socks5(self.backend),
    {
        upstream_speaks_socks5(self.backend)
    }

    /// Whether the session has ended.
    pub fn is_closed(&self) -> (r: bool)
        ensures
            r == (self.phase == Phase::Closed),
    {
        self.phase == Phase::Closed
    }

    fn close(&mut self) -> (a: Action)
        ensures
            (final(self)@, a@) == shut(old(self)@),
    {
        self.phase = Phase::Closed;
        Action::Close
    }

    fn turn(&mut self, phase: Phase, action: Action) -> (a: Action)
        ensures
            (final(self)@, a@) == go(old(self)@, phase, action@),
            a == action,
    {
        self.phase = phase;
        action
    }

    fn take_ipv4(&mut self, b: &Vec<u8>) -> (a: Action)
        requires
            b.len() == 6,
        ensures
            (final(self)@, a@) == go(
                with_ipv4_target(old(self)@, b@),
                Phase::Connecting,
                ActionView::ConnectUpstream(old(self).server.upstream(Protocol::Tor)),
            ),
    {
        let host = dotted_quad_string(b[0], b[1], b[2], b[3]);
        proof {
            dotted_quad_shape(b[0], b[1], b[2], b[3]);
        }
        self.wire_host = ascii_to_bytes(host.as_str());
        self.target_host = host;
        self.addr_type = AddrType::IPv4;
        self.target_port = read_be16(b[4], b[5]);
        self.backend = Protocol::Tor;
        self.phase = Phase::Connecting;
        Action::ConnectUpstream(self.server.upstream_of(Protocol::Tor))
    }

    fn take_domain(&mut self, n: u8, b: &Vec<u8>) -> (a: Action)
        requires
            b.len() == n + 2,
        ensures
            (final(self)@, a@) == go(
                with_domain_target(old(self)@, n as int, b@),
                Phase::Connecting,
                ActionView::ConnectUpstream(
                    old(self).server.upstream(route(utf8_lossy(b@.subrange(0, n as int)))),
                ),
            ),
    {
        let name = copy_range(b, 0, n as usize);
        let host = lossy_text(name.as_slice());
        let backend = classify(host.as_str());
        self.wire_host = name;
        self.target_host = host;
        self.addr_type = AddrType::Domain;
        self.target_port = read_be16(b[n as usize], b[n as usize + 1]);
        self.backend = backend;
        self.phase = Phase::Connecting;
        Action::ConnectUpstream(self.server.upstream_of(backend))
    }

    fn bytes_arrived(&mut self, b: &Vec<u8>) -> (a: Action)
        ensures
            (final(self)@, a@) == on_bytes(old(self)@, b@),
    {
        match self.phase {
            Phase::GreetingHead => {
                if b.len() == 2 && b[0] == 5 && b[1] >= 1 {
                    self.turn(Phase::GreetingMethods(b[1]), Action::ReadClient(b[1] as usize))
                } else {
                    self.close()
                }
            },
            Phase::GreetingMethods(n) => {
                if b.len() == n as usize {
                    let reply: Vec<u8> = vec![5, 0];
                    assert(reply@ =~= method_selection());
                    self.turn(Phase::MethodSent, Action::WriteClient(reply))
                } else {
                    self.close()
                }
            },
            Phase::RequestHead => {
                if b.len() == 4 && b[0] == 5 && b[1] == 1 && b[3] == 1 {
                    self.turn(Phase::RequestIPv4, Action::ReadClient(6))
                } else if b.len() == 4 && b[0] == 5 && b[1] == 1 && b[3] == 3 {
                    self.turn(Phase::RequestDomainLen, Action::ReadClient(1))
                } else {
                    self.close()
                }
            },
            Phase::RequestIPv4 => {
                if b.len() == 6 {
                    self.take_ipv4(b)
                } else {
                    self.close()
                }
            },
            Phase::RequestDomainLen => {
                if b.len() == 1 && b[0] >= 1 {
                    self.turn(Phase::RequestDomain(b[0]), Action::ReadClient(b[0] as usize + 2))
                } else {
                    self.close()
                }
            },
            Phase::RequestDomain(n) => {
                if n >= 1 && b.len() == n as usize + 2 {
                    self.take_domain(n, b)
                } else {
                    self.close()
                }
            },
            Phase::UpstreamMethod => {
                if b.len() == 2 && b[0] == 5 && b[1] == 0 && self.wire_host.len() <= 255 {
                    assert(b@ =~= method_selection());
                    let frame = build_connect_frame(&self.wire_host, self.target_port);
                    self.turn(Phase::UpstreamRequestSent, Action::WriteUpstream(frame))
                } else {
                    assert(b@ != method_selection() || self.wire_host.len() > 255) by {
                        if b@ == method_selection() {
                            assert(b@.len() == 2 && b@[0] == 5 && b@[1] == 0);
                        }
                    }
                    self.close()
                }
            },
            Phase::UpstreamReplyHead => {
                if b.len() == 4 && b[3] == 1 {
                    self.turn(Phase::UpstreamReplyTail(6), Action::ReadUpstream(6))
                } else if b.len() == 4 && b[3] == 3 {
                    self.turn(Phase::UpstreamReplyDomainLen, Action::ReadUpstream(1))
                } else if b.len() == 4 && b[3] == 4 {
                    self.turn(Phase::UpstreamReplyTail(18), Action::ReadUpstream(18))
                } else {
                    self.close()
                }
            },
            Phase::UpstreamReplyDomainLen => {
                if b.len() == 1 {
                    self.turn(
                        Phase::UpstreamReplyTail(b[0] as u16 + 2),
                        Action::ReadUpstream(b[0] as usize + 2),
                    )
                } else {
                    self.close()
                }
            },
            Phase::UpstreamReplyTail(n) => {
                if b.len() == n as usize {
                    self.turn(Phase::Splicing, Action::Splice)
                } else {
                    self.close()
                }
            },
            _ => self.close(),
        }
    }

    fn action_done(&mut self) -> (a: Action)
        ensures
            (final(self)@, a@) == on_done(old(self)@),
    {
        match self.phase {
            Phase::Accepted => self.turn(Phase::GreetingHead, Action::ReadClient(2)),
            Phase::MethodSent => self.turn(Phase::RequestHead, Action::ReadClient(4)),
            Phase::Connecting => {
                let reply: Vec<u8> = vec![5, 0, 0, 1, 0, 0, 0, 0, 0, 0];
                assert(reply@ =~= success_reply());
                self.turn(Phase::ReplySent, Action::WriteClient(reply))
            },
            Phase::ReplySent => {
                if upstream_speaks_socks5(self.backend) {
                    let hello: Vec<u8> = vec![5, 1, 0];
                    assert(hello@ =~= upstream_greeting());
                    self.turn(Phase::UpstreamGreetingSent, Action::WriteUpstream(hello))
                } else {
                    self.turn(Phase::Splicing, Action::Splice)
                }
            },
            Phase::UpstreamGreetingSent => self.turn(
                Phase::UpstreamMethod,
                Action::ReadUpstream(2),
            ),
            Phase::UpstreamRequestSent => self.turn(
                Phase::UpstreamReplyHead,
                Action::ReadUpstream(4),
            ),
            _ => self.close(),
        }
    }

    /// Takes one event and answers with the next action, as `next` says.
    pub fn advance(&mut self, event: Event) -> (action: Action)
        ensures
            (final(self)@, action@) == next(old(self)@, event@),
    {
        match event {
            Event::Done => self.action_done(),
            Event::Bytes(b) => self.bytes_arrived(&b),
            Event::Failed => self.close(),
        }
    }
}

/// A greeting that offers no method closes the session.
pub proof fn greeting_without_methods_closes(s: SessionView, b: Seq<u8>)
    requires
        s.phase == Phase::GreetingHead,
        b.len() == 2,
        b[1] == 0,
    ensures
        next(s, EventView::Bytes(b)) == shut(s),
{
}

/// A greeting in any version but 5 closes the session.
pub proof fn foreign_version_closes(s: SessionView, b: Seq<u8>)
    requires
        s.phase == Phase::GreetingHead || s.phase == Phase::RequestHead,
        b.len() >= 1,
        b[0] != 5,
    ensures
        next(s, EventView::Bytes(b)) == shut(s),
{
}

/// A request for anything but CONNECT closes the session.
pub proof fn other_command_closes(s: SessionView, b: Seq<u8>)
    requires
        s.phase == Phase::RequestHead,
        b.len() == 4,
        b[1] != 1,
    ensures
        next(s, EventView::Bytes(b)) == shut(s),
{
}

/// A request whose address is neither IPv4 nor a domain name closes the
/// session; an IPv6 address (type 4) is such a request.
pub proof fn other_address_type_closes(s: SessionView, b: Seq<u8>)
    requires
        s.phase == Phase::RequestHead,
        b.len() == 4,
        b[3] != 1,
        b[3] != 3,
    ensures
        next(s, EventView::Bytes(b)) == shut(s),
{
}

/// A domain name of length 0 closes the session.
pub proof fn empty_domain_closes(s: SessionView, b: Seq<u8>)
    requires
        s.phase == Phase::RequestDomainLen,
        b.len() == 1,
        b[0] == 0,
    ensures
        next(s, EventView::Bytes(b)) == shut(s),
{
}

/// A read that brings another number of bytes than was asked for closes
/// the session.
pub proof fn short_read_closes(s: SessionView, b: Seq<u8>)
    requires
        match s.phase {
            Phase::GreetingHead => b.len() != 2,
            Phase::GreetingMethods(n) => b.len() != n,
            Phase::RequestHead => b.len() != 4,
            Phase::RequestIPv4 => b.len() != 6,
            Phase::RequestDomainLen => b.len() != 1,
            Phase::RequestDomain(n) => b.len() != n + 2,
            Phase::UpstreamMethod => b.len() != 2,
            Phase::UpstreamReplyHead => b.len() != 4,
            Phase::UpstreamReplyDomainLen => b.len() != 1,
            Phase::UpstreamReplyTail(n) => b.len() != n,
            _ => true,
        },
    ensures
        next(s, EventView::Bytes(b)) == shut(s),
{
}

/// A closed session stays closed and asks for nothing but the close.
pub proof fn closed_stays_closed(s: SessionView, e: EventView)
    requires
        s.phase == Phase::Closed,
    ensures
        next(s, e) == shut(s),
        next(s, e).0 == s,
{
}

/// The phases in which a session talks to the upstream proxy before the
/// splice.
pub open spec fn in_upstream_handshake(phase: Phase) -> bool {
    match phase {
        Phase::UpstreamGreetingSent => true,
        Phase::UpstreamMethod => true,
        Phase::UpstreamRequestSent => true,
        Phase::UpstreamReplyHead => true,
        Phase::UpstreamReplyDomainLen => true,
        Phase::UpstreamReplyTail(_) => true,
        _ => false,
    }
}

/// A session talks to its upstream proxy only where that proxy speaks
/// SOCKS5.
pub open spec fn coherent(s: SessionView) -> bool {
    in_upstream_handshake(s.phase) ==> speaks_socks5(s.backend)
}

/// A new session is coherent, and every step keeps it so.
pub proof fn steps_keep_coherence(s: SessionView, e: EventView)
    requires
        coherent(s),
    ensures
        coherent(next(s, e).0),
{
}

/// Before the splice nothing is written to a gateway: whenever a coherent
/// session asks for an upstream write, its upstream proxy speaks SOCKS5.
pub proof fn gateways_get_no_handshake(s: SessionView, e: EventView)
    requires
        coherent(s),
        next(s, e).1 is WriteUpstream,
    ensures
        speaks_socks5(next(s, e).0.backend),
        speaks_socks5(s.backend),
{
}

/// How many bytes of an upstream reply follow its four-byte head: the
/// bound address and the port.
pub open spec fn reply_tail_len(address_type: u8, domain_len: u8) -> int {
    if address_type == 1 {
        6
    } else if address_type == 3 {
        1 + domain_len + 2
    } else {
        18
    }
}

/// The reply of an upstream proxy is read whole before the splice, so no
/// byte of it reaches the client. After a head that names IPv4 or IPv6 the
/// session asks for the bound address and port in one read and then goes
/// to the splice.
pub proof fn fixed_reply_is_consumed(s0: SessionView, head: Seq<u8>, tail: Seq<u8>)
    requires
        s0.phase == Phase::UpstreamReplyHead,
        head.len() == 4,
        head[3] == 1 || head[3] == 4,
        tail.len() == reply_tail_len(head[3], 0),
    ensures
        ({
            let (s1, a1) = next(s0, EventView::Bytes(head));
            let (s2, a2) = next(s1, EventView::Bytes(tail));
            &&& a1 == ActionView::ReadUpstream(tail.len() as usize)
            &&& a2 == ActionView::Splice
            &&& s2.phase == Phase::Splicing
        }),
{
}

/// After a head that names a domain name the session asks for the length
/// byte, then for the name and the port, and then goes to the splice.
pub proof fn domain_reply_is_consumed(s0: SessionView, head: Seq<u8>, len: u8, tail: Seq<u8>)
    requires
        s0.phase == Phase::UpstreamReplyHead,
        head.len() == 4,
        head[3] == 3,
        1 + tail.len() == reply_tail_len(3, len),
    ensures
        ({
            let (s1, a1) = next(s0, EventView::Bytes(head));
            let (s2, a2) = next(s1, EventView::Bytes(seq![len]));
            let (s3, a3) = next(s2, EventView::Bytes(tail));
            &&& a1 == ActionView::ReadUpstream(1)
            &&& a2 == ActionView::ReadUpstream(tail.len() as usize)
            &&& a3 == ActionView::Splice
            &&& s3.phase == Phase::Splicing
        }),
{
}

/// The splice begins only where the session has nothing left to read from
/// the upstream proxy: straight after the reply to the client where the
/// upstream is a gateway, and after the last byte of the upstream's reply
/// where it speaks SOCKS5.
pub proof fn splice_begins_after_the_handshake(s: SessionView, e: EventView)
    requires
        next(s, e).1 is Splice,
    ensures
        (s.phase == Phase::ReplySent && !speaks_socks5(s.backend)) || (s.phase
            is UpstreamReplyTail),
{
}

/// The phases from the success reply on.
pub open spec fn past_reply(phase: Phase) -> bool {
    phase == Phase::ReplySent || in_upstream_handshake(phase) || phase == Phase::Splicing
        || phase == Phase::Closed
}

/// Once the success reply is on its way the session leaves the client
/// alone: it neither reads from the client nor writes to it before the
/// splice, so the first byte that the splice takes from the client is the
/// first byte that the client sent after its request.
pub proof fn client_is_left_alone_after_reply(s: SessionView, e: EventView)
    requires
        past_reply(s.phase),
    ensures
        past_reply(next(s, e).0.phase),
        !(next(s, e).1 is ReadClient),
        !(next(s, e).1 is WriteClient),
        !(next(s, e).1 is ConnectUpstream),
{
}

/// The conversation with a client that asks for a domain name. From a new
/// session, a greeting with `methods`, and a CONNECT request for `name` and
/// `port`, lead to a connection to the proxy of the back-end that the name
/// belongs to, then to the success reply, and then either to the greeting
/// of the upstream proxy, where it speaks SOCKS5, or straight to the
/// splice.
pub proof fn domain_request_conversation(
    s0: SessionView,
    methods: Seq<u8>,
    name: Seq<u8>,
    port: u16,
)
    requires
        s0.phase == Phase::Accepted,
        1 <= methods.len() <= 255,
        1 <= name.len() <= 255,
    ensures
        ({
            let backend = route(utf8_lossy(name));
            let tail = name + seq![hi_byte(port), lo_byte(port)];
            let (s1, a1) = next(s0, EventView::Done);
            let (s2, a2) = next(s1, EventView::Bytes(seq![5u8, methods.len() as u8]));
            let (s3, a3) = next(s2, EventView::Bytes(methods));
            let (s4, a4) = next(s3, EventView::Done);
            let (s5, a5) = next(s4, EventView::Bytes(seq![5u8, 1u8, 0u8, 3u8]));
            let (s6, a6) = next(s5, EventView::Bytes(seq![name.len() as u8]));
            let (s7, a7) = next(s6, EventView::Bytes(tail));
            let (s8, a8) = next(s7, EventView::Done);
            let (s9, a9) = next(s8, EventView::Done);
            &&& a1 == ActionView::ReadClient(2)
            &&& a2 == ActionView::ReadClient(methods.len() as usize)
            &&& a3 == ActionView::WriteClient(method_selection())
            &&& a4 == ActionView::ReadClient(4)
            &&& a5 == ActionView::ReadClient(1)
            &&& a6 == ActionView::ReadClient((name.len() + 2) as usize)
            &&& a7 == ActionView::ConnectUpstream(s0.server.upstream(backend))
            &&& s7.target_host == utf8_lossy(name)
            &&& s7.wire_host == name
            &&& s7.target_port == port
            &&& s7.addr_type == AddrType::Domain
            &&& s7.backend == backend
            &&& a8 == ActionView::WriteClient(success_reply())
            &&& speaks_socks5(backend) ==> a9 == ActionView::WriteUpstream(upstream_greeting())
            &&& !speaks_socks5(backend) ==> a9 == ActionView::Splice && s9.phase
                == Phase::Splicing
        }),
{
    let tail = name + seq![hi_byte(port), lo_byte(port)];
    let n = name.len() as int;
    assert(tail.subrange(0, n) =~= name);
    assert(tail[n] == hi_byte(port) && tail[n + 1] == lo_byte(port));
    crate::bytes::be16_round_trip(port);
}

/// The conversation with an upstream proxy that speaks SOCKS5. Once the
/// client has its reply, the session greets the proxy, expects the method
/// selection, forwards the CONNECT request for the same host and port in
/// domain-name form, reads the head of the reply and then asks for the
/// bound address and port that the head announces: 6 bytes for IPv4, the
/// length byte first for a domain name, 18 bytes for IPv6. A head that
/// names no such address type closes the session.
pub proof fn upstream_conversation(s0: SessionView, head: Seq<u8>)
    requires
        s0.phase == Phase::ReplySent,
        speaks_socks5(s0.backend),
        s0.wire_host.len() <= 255,
        head.len() == 4,
    ensures
        ({
            let (s1, a1) = next(s0, EventView::Done);
            let (s2, a2) = next(s1, EventView::Done);
            let (s3, a3) = next(s2, EventView::Bytes(method_selection()));
            let (s4, a4) = next(s3, EventView::Done);
            let (s5, a5) = next(s4, EventView::Bytes(head));
            &&& a1 == ActionView::WriteUpstream(upstream_greeting())
            &&& a2 == ActionView::ReadUpstream(2)
            &&& a3 == ActionView::WriteUpstream(connect_frame(s0.wire_host, s0.target_port))
            &&& a4 == ActionView::ReadUpstream(4)
            &&& head[3] == 1 ==> a5 == ActionView::ReadUpstream(6)
            &&& head[3] == 3 ==> a5 == ActionView::ReadUpstream(1)
            &&& head[3] == 4 ==> a5 == ActionView::ReadUpstream(18)
            &&& head[3] != 1 && head[3] != 3 && head[3] != 4 ==> a5 == ActionView::Close
            &&& s5.backend == s0.backend && s5.wire_host == s0.wire_host && s5.target_port
                == s0.target_port
        }),
{
}

} // verus!
