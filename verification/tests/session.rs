use chimera_node::health_monitor::Protocol;
use chimera_node::session::{Action, AddrType, Event, Phase, Session};
use chimera_node::socks5::{Endpoint, Socks5Server};

const TOR: u16 = 19051;
const I2P: u16 = 19052;
const IPFS: u16 = 19055;
const FREENET: u16 = 19057;

fn server() -> Socks5Server {
    Socks5Server::new(
        9050,
        TOR,
        I2P,
        19053,
        19054,
        IPFS,
        19056,
        FREENET,
        19058,
        "http://unused".to_string(),
        "http://unused".to_string(),
    )
}

fn local(port: u16) -> Endpoint {
    Endpoint { ip: (127, 0, 0, 1), port }
}

fn domain_request(host: &str, port: u16) -> (Vec<u8>, Vec<u8>, Vec<u8>) {
    let head = vec![0x05, 0x01, 0x00, 0x03];
    let len = vec![host.len() as u8];
    let mut tail = host.as_bytes().to_vec();
    tail.extend_from_slice(&port.to_be_bytes());
    (head, len, tail)
}

/// Drives a new session through greeting and request; returns it with the
/// action that answers the request's last bytes.
fn request(host: &str, port: u16) -> (Session, Action) {
    let mut s = Session::new(server());
    assert_eq!(s.advance(Event::Done), Action::ReadClient(2));
    assert_eq!(s.advance(Event::Bytes(vec![0x05, 0x01])), Action::ReadClient(1));
    assert_eq!(s.advance(Event::Bytes(vec![0x00])), Action::WriteClient(vec![0x05, 0x00]));
    assert_eq!(s.advance(Event::Done), Action::ReadClient(4));
    let (head, len, tail) = domain_request(host, port);
    assert_eq!(s.advance(Event::Bytes(head)), Action::ReadClient(1));
    assert_eq!(s.advance(Event::Bytes(len)), Action::ReadClient(host.len() + 2));
    let a = s.advance(Event::Bytes(tail));
    (s, a)
}

#[test]
fn test_socks5_integration() {
    // The client greets with one method and asks for test.onion:80.
    let target = "test.onion";
    let (mut s, connect) = request(target, 80);
    assert_eq!(connect, Action::ConnectUpstream(local(TOR)));
    assert_eq!(s.target_host, "test.onion");
    assert_eq!(s.target_port, 80);
    assert_eq!(s.addr_type, AddrType::Domain);
    assert_eq!(s.backend, Protocol::Tor);
    assert!(s.upstream_is_socks5());
    assert_eq!(s.upstream_endpoint(), local(TOR));

    // The upstream connection stands: the client gets its success reply.
    let reply = s.advance(Event::Done);
    assert_eq!(reply, Action::WriteClient(vec![0x05, 0x00, 0x00, 0x01, 0, 0, 0, 0, 0, 0]));
    if let Action::WriteClient(bytes) = &reply {
        assert_eq!(bytes[1], 0x00);
        assert_eq!(bytes.len(), 4 + 6);
    }

    // The upstream sees the greeting, answers, and gets the CONNECT request
    // for the same target in domain-name form.
    assert_eq!(s.advance(Event::Done), Action::WriteUpstream(vec![0x05, 0x01, 0x00]));
    assert_eq!(s.advance(Event::Done), Action::ReadUpstream(2));
    let mut pkt = vec![0x05, 0x01, 0x00, 0x03];
    pkt.push(target.len() as u8);
    pkt.extend_from_slice(target.as_bytes());
    pkt.extend_from_slice(&80u16.to_be_bytes());
    assert_eq!(s.advance(Event::Bytes(vec![0x05, 0x00])), Action::WriteUpstream(pkt));
    assert_eq!(s.advance(Event::Done), Action::ReadUpstream(4));

    // The upstream replies 05 00 00 01 and six bytes of bound address.
    assert_eq!(s.advance(Event::Bytes(vec![0x05, 0x00, 0x00, 0x01])), Action::ReadUpstream(6));
    assert_eq!(s.advance(Event::Bytes(vec![0, 0, 0, 0, 0, 0])), Action::Splice);
    assert_eq!(s.phase, Phase::Splicing);
    assert!(!s.is_closed());

    // The splice ends: the session closes.
    assert_eq!(s.advance(Event::Done), Action::Close);
    assert!(s.is_closed());
}

#[test]
fn i2p_host_goes_to_the_i2p_proxy() {
    let (mut s, connect) = request("site.i2p", 80);
    assert_eq!(connect, Action::ConnectUpstream(local(I2P)));
    assert_ne!(connect, Action::ConnectUpstream(local(TOR)));
    assert_eq!(s.backend, Protocol::I2p);
    let _ = s.advance(Event::Done);
    assert_eq!(s.advance(Event::Done), Action::WriteUpstream(vec![0x05, 0x01, 0x00]));
}

#[test]
fn ipfs_host_is_spliced_without_a_greeting() {
    let (mut s, connect) = request("bafy...ipfs", 80);
    assert_eq!(connect, Action::ConnectUpstream(local(IPFS)));
    assert!(!s.upstream_is_socks5());
    assert_eq!(
        s.advance(Event::Done),
        Action::WriteClient(vec![0x05, 0x00, 0x00, 0x01, 0, 0, 0, 0, 0, 0])
    );
    assert_eq!(s.advance(Event::Done), Action::Splice);
    assert_eq!(s.phase, Phase::Splicing);
}

#[test]
fn freenet_key_is_spliced_to_the_freenet_port() {
    let (mut s, connect) = request("USK@abc", 8888);
    assert_eq!(connect, Action::ConnectUpstream(local(FREENET)));
    assert_eq!(s.backend, Protocol::Freenet);
    let _ = s.advance(Event::Done);
    assert_eq!(s.advance(Event::Done), Action::Splice);
}

#[test]
fn plain_host_falls_back_to_tor() {
    let (mut s, connect) = request("google.com", 443);
    assert_eq!(connect, Action::ConnectUpstream(local(TOR)));
    assert_eq!(s.target_port, 443);
    let _ = s.advance(Event::Done);
    assert_eq!(s.advance(Event::Done), Action::WriteUpstream(vec![0x05, 0x01, 0x00]));
}

#[test]
fn greeting_with_no_methods_closes() {
    let mut s = Session::new(server());
    let _ = s.advance(Event::Done);
    assert_eq!(s.advance(Event::Bytes(vec![0x05, 0x00])), Action::Close);
    assert!(s.is_closed());
}

#[test]
fn greeting_in_another_version_closes() {
    let mut s = Session::new(server());
    let _ = s.advance(Event::Done);
    assert_eq!(s.advance(Event::Bytes(vec![0x04, 0x01])), Action::Close);
    assert_eq!(s.phase, Phase::Closed);
}

fn at_request_head() -> Session {
    let mut s = Session::new(server());
    let _ = s.advance(Event::Done);
    let _ = s.advance(Event::Bytes(vec![0x05, 0x02]));
    assert_eq!(s.advance(Event::Bytes(vec![0x00, 0x02])), Action::WriteClient(vec![0x05, 0x00]));
    assert_eq!(s.advance(Event::Done), Action::ReadClient(4));
    s
}

#[test]
fn empty_domain_closes() {
    let mut s = at_request_head();
    assert_eq!(s.advance(Event::Bytes(vec![0x05, 0x01, 0x00, 0x03])), Action::ReadClient(1));
    assert_eq!(s.advance(Event::Bytes(vec![0x00])), Action::Close);
    assert!(s.is_closed());
}

#[test]
fn ipv6_request_closes() {
    let mut s = at_request_head();
    assert_eq!(s.advance(Event::Bytes(vec![0x05, 0x01, 0x00, 0x04])), Action::Close);
    assert!(s.is_closed());
}

#[test]
fn bind_and_udp_associate_close() {
    let mut s = at_request_head();
    assert_eq!(s.advance(Event::Bytes(vec![0x05, 0x02, 0x00, 0x01])), Action::Close);
    let mut s = at_request_head();
    assert_eq!(s.advance(Event::Bytes(vec![0x05, 0x03, 0x00, 0x03])), Action::Close);
}

#[test]
fn request_in_another_version_closes() {
    let mut s = at_request_head();
    assert_eq!(s.advance(Event::Bytes(vec![0x04, 0x01, 0x00, 0x01])), Action::Close);
}

#[test]
fn ipv4_request_takes_the_default_route_as_a_dotted_quad() {
    let mut s = at_request_head();
    assert_eq!(s.advance(Event::Bytes(vec![0x05, 0x01, 0x00, 0x01])), Action::ReadClient(6));
    assert_eq!(
        s.advance(Event::Bytes(vec![192, 168, 0, 1, 0x1F, 0x90])),
        Action::ConnectUpstream(local(TOR))
    );
    assert_eq!(s.addr_type, AddrType::IPv4);
    assert_eq!(s.target_host, "192.168.0.1");
    assert_eq!(s.wire_host, b"192.168.0.1".to_vec());
    assert_eq!(s.target_port, 8080);
    let _ = s.advance(Event::Done);
    let _ = s.advance(Event::Done);
    let _ = s.advance(Event::Done);
    let mut pkt = vec![0x05, 0x01, 0x00, 0x03, 11];
    pkt.extend_from_slice(b"192.168.0.1");
    pkt.extend_from_slice(&[0x1F, 0x90]);
    assert_eq!(s.advance(Event::Bytes(vec![0x05, 0x00])), Action::WriteUpstream(pkt));
}

#[test]
fn widest_and_narrowest_dotted_quads() {
    let mut s = at_request_head();
    let _ = s.advance(Event::Bytes(vec![0x05, 0x01, 0x00, 0x01]));
    let _ = s.advance(Event::Bytes(vec![255, 255, 255, 255, 0xFF, 0xFF]));
    assert_eq!(s.target_host, "255.255.255.255");
    assert_eq!(s.target_port, 65535);
    let mut s = at_request_head();
    let _ = s.advance(Event::Bytes(vec![0x05, 0x01, 0x00, 0x01]));
    let _ = s.advance(Event::Bytes(vec![0, 0, 0, 0, 0, 0]));
    assert_eq!(s.target_host, "0.0.0.0");
    assert_eq!(s.target_port, 0);
}

#[test]
fn invalid_utf8_in_a_domain_is_decoded_leniently_and_forwarded_as_it_came() {
    let mut s = at_request_head();
    let _ = s.advance(Event::Bytes(vec![0x05, 0x01, 0x00, 0x03]));
    assert_eq!(s.advance(Event::Bytes(vec![7])), Action::ReadClient(9));
    let mut tail = vec![0xFF];
    tail.extend_from_slice(b".onion");
    tail.extend_from_slice(&[0, 80]);
    assert_eq!(s.advance(Event::Bytes(tail)), Action::ConnectUpstream(local(TOR)));
    assert_eq!(s.target_host, "\u{FFFD}.onion");
    assert_eq!(s.wire_host, vec![0xFF, b'.', b'o', b'n', b'i', b'o', b'n']);
}

#[test]
fn short_reads_close() {
    let mut s = Session::new(server());
    let _ = s.advance(Event::Done);
    assert_eq!(s.advance(Event::Bytes(vec![0x05])), Action::Close);

    let mut s = Session::new(server());
    let _ = s.advance(Event::Done);
    let _ = s.advance(Event::Bytes(vec![0x05, 0x03]));
    assert_eq!(s.advance(Event::Bytes(vec![0x00, 0x01])), Action::Close);

    let mut s = at_request_head();
    let _ = s.advance(Event::Bytes(vec![0x05, 0x01, 0x00, 0x03]));
    let _ = s.advance(Event::Bytes(vec![4]));
    assert_eq!(s.advance(Event::Bytes(b"a.b".to_vec())), Action::Close);
}

#[test]
fn failures_and_events_out_of_turn_close() {
    let mut s = Session::new(server());
    assert_eq!(s.advance(Event::Failed), Action::Close);
    assert_eq!(s.advance(Event::Done), Action::Close);
    assert_eq!(s.advance(Event::Bytes(vec![0x05, 0x01])), Action::Close);

    let mut s = Session::new(server());
    assert_eq!(s.advance(Event::Bytes(vec![0x05, 0x01])), Action::Close);

    let (mut s, _) = request("test.onion", 80);
    assert_eq!(s.advance(Event::Failed), Action::Close);
    assert!(s.is_closed());
}

#[test]
fn upstream_that_refuses_the_method_closes() {
    let (mut s, _) = request("test.onion", 80);
    let _ = s.advance(Event::Done);
    let _ = s.advance(Event::Done);
    assert_eq!(s.advance(Event::Done), Action::ReadUpstream(2));
    assert_eq!(s.advance(Event::Bytes(vec![0x05, 0xFF])), Action::Close);
}

#[test]
fn upstream_reply_with_a_domain_is_consumed() {
    let (mut s, _) = request("site.i2p", 80);
    let _ = s.advance(Event::Done);
    let _ = s.advance(Event::Done);
    let _ = s.advance(Event::Done);
    let _ = s.advance(Event::Bytes(vec![0x05, 0x00]));
    assert_eq!(s.advance(Event::Done), Action::ReadUpstream(4));
    assert_eq!(s.advance(Event::Bytes(vec![0x05, 0x00, 0x00, 0x03])), Action::ReadUpstream(1));
    assert_eq!(s.advance(Event::Bytes(vec![9])), Action::ReadUpstream(11));
    assert_eq!(s.phase, Phase::UpstreamReplyTail(11));
    assert_eq!(s.advance(Event::Bytes(vec![0; 11])), Action::Splice);
}

fn at_upstream_reply_head() -> Session {
    let (mut s, _) = request("site.i2p", 80);
    let _ = s.advance(Event::Done);
    let _ = s.advance(Event::Done);
    let _ = s.advance(Event::Done);
    let _ = s.advance(Event::Bytes(vec![0x05, 0x00]));
    assert_eq!(s.advance(Event::Done), Action::ReadUpstream(4));
    s
}

#[test]
fn upstream_reply_with_an_ipv6_address_is_consumed() {
    let mut s = at_upstream_reply_head();
    assert_eq!(s.advance(Event::Bytes(vec![0x05, 0x00, 0x00, 0x04])), Action::ReadUpstream(18));
    assert_eq!(s.phase, Phase::UpstreamReplyTail(18));
    assert_eq!(s.advance(Event::Bytes(vec![0; 18])), Action::Splice);
    assert_eq!(s.phase, Phase::Splicing);
}

#[test]
fn upstream_reply_with_a_short_ipv6_address_closes() {
    let mut s = at_upstream_reply_head();
    let _ = s.advance(Event::Bytes(vec![0x05, 0x00, 0x00, 0x04]));
    assert_eq!(s.advance(Event::Bytes(vec![0; 6])), Action::Close);
}

#[test]
fn upstream_reply_with_an_unknown_address_type_closes() {
    let mut s = at_upstream_reply_head();
    assert_eq!(s.advance(Event::Bytes(vec![0x05, 0x00, 0x00, 0x02])), Action::Close);
    assert!(s.is_closed());
    let mut s = at_upstream_reply_head();
    assert_eq!(s.advance(Event::Bytes(vec![0x05, 0x00, 0x00, 0x00])), Action::Close);
}

#[test]
fn upstream_reply_with_an_empty_domain_is_consumed() {
    let mut s = at_upstream_reply_head();
    assert_eq!(s.advance(Event::Bytes(vec![0x05, 0x00, 0x00, 0x03])), Action::ReadUpstream(1));
    assert_eq!(s.advance(Event::Bytes(vec![0])), Action::ReadUpstream(2));
    assert_eq!(s.advance(Event::Bytes(vec![0, 0])), Action::Splice);
}

#[test]
fn longest_domain_is_forwarded_whole() {
    let host = "a".repeat(249) + ".onion";
    assert_eq!(host.len(), 255);
    let (mut s, connect) = request(&host, 80);
    assert_eq!(connect, Action::ConnectUpstream(local(TOR)));
    let _ = s.advance(Event::Done);
    let _ = s.advance(Event::Done);
    let _ = s.advance(Event::Done);
    let mut pkt = vec![0x05, 0x01, 0x00, 0x03, 255];
    pkt.extend_from_slice(host.as_bytes());
    pkt.extend_from_slice(&[0, 80]);
    assert_eq!(s.advance(Event::Bytes(vec![0x05, 0x00])), Action::WriteUpstream(pkt));
}
