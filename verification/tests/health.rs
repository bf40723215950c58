use chimera_node::adapters::tor::TorAdapter;
use chimera_node::adapters::{ProtocolAdapter, StartOutcome};
use chimera_node::config::Settings;
use chimera_node::health_monitor::{
    new_health_state, run_health_monitor, HealthChange, Protocol, ProtocolSet,
};

#[test]
fn new_health_state_has_every_back_end_unhealthy() {
    let h = new_health_state();
    assert_eq!(Protocol::all().len(), 10);
    for p in Protocol::all() {
        assert_eq!(h.get(p), Some(false));
    }
}

#[test]
fn record_tells_how_the_entry_moved() {
    let mut h = new_health_state();
    assert_eq!(h.record(Protocol::Nym, false), HealthChange::Steady);
    assert_eq!(h.record(Protocol::Nym, true), HealthChange::Recovered);
    assert_eq!(h.record(Protocol::Nym, true), HealthChange::Steady);
    assert_eq!(h.get(Protocol::Nym), Some(true));
    assert_eq!(h.get(Protocol::Tor), Some(false));
    assert_eq!(h.record(Protocol::Nym, false), HealthChange::Lost);
    assert_eq!(h.get(Protocol::Nym), Some(false));
}

#[test]
fn cleared_map_has_no_entries_and_counts_as_unhealthy() {
    let mut h = new_health_state();
    let _ = h.record(Protocol::Ipfs, true);
    h.clear();
    for p in Protocol::all() {
        assert_eq!(h.get(p), None);
        assert!(!h.is_healthy(p));
    }
    assert_eq!(h.record(Protocol::Ipfs, true), HealthChange::Recovered);
    assert_eq!(h.get(Protocol::Ipfs), Some(true));
    assert_eq!(h.get(Protocol::Tor), None);
}

#[test]
fn map_holds_the_latest_answer_of_each_back_end() {
    let mut h = new_health_state();
    let probes = [
        (Protocol::Tor, true),
        (Protocol::I2p, true),
        (Protocol::Tor, false),
        (Protocol::Freenet, false),
        (Protocol::I2p, true),
        (Protocol::Tor, true),
        (Protocol::I2p, false),
    ];
    for (p, healthy) in probes {
        let _ = h.record(p, healthy);
    }
    assert!(h.is_healthy(Protocol::Tor));
    assert!(!h.is_healthy(Protocol::I2p));
    assert!(!h.is_healthy(Protocol::Freenet));
    assert!(!h.is_healthy(Protocol::Nym));
}

#[test]
fn monitor_tick_writes_what_the_adapter_says() {
    let mut h = new_health_state();
    let mut tor = TorAdapter::new(Settings::new().tor);
    assert_eq!(run_health_monitor(Protocol::Tor, &tor, &mut h), HealthChange::Steady);
    assert_eq!(h.get(Protocol::Tor), Some(false));
    let _ = tor.start();
    let _ = tor.finish_start(StartOutcome::Up);
    assert!(tor.is_healthy());
    assert_eq!(run_health_monitor(Protocol::Tor, &tor, &mut h), HealthChange::Recovered);
    assert_eq!(h.get(Protocol::Tor), Some(true));
    let _ = tor.stop();
    assert_eq!(run_health_monitor(Protocol::Tor, &tor, &mut h), HealthChange::Lost);
    assert_eq!(h.get(Protocol::Tor), Some(false));
}

#[test]
fn tags_name_back_ends() {
    let tags = [
        ("tor", Protocol::Tor),
        ("i2p", Protocol::I2p),
        ("nym", Protocol::Nym),
        ("lokinet", Protocol::Lokinet),
        ("ipfs", Protocol::Ipfs),
        ("zeronet", Protocol::ZeroNet),
        ("freenet", Protocol::Freenet),
        ("gnunet", Protocol::GnuNet),
        ("retroshare", Protocol::RetroShare),
        ("tribler", Protocol::Tribler),
    ];
    for (tag, p) in tags {
        assert_eq!(Protocol::from_tag(tag), Some(p));
        assert_eq!(p.tag(), tag);
    }
    assert_eq!(Protocol::from_tag("Tor"), None);
    assert_eq!(Protocol::from_tag("tor "), None);
    assert_eq!(Protocol::from_tag(""), None);
    assert_eq!(Protocol::from_tag("wireguard"), None);
}

#[test]
fn unknown_tags_are_passed_over() {
    let tags = vec![
        "tor".to_string(),
        "bogus".to_string(),
        "ipfs".to_string(),
        "tor".to_string(),
        "TOR".to_string(),
    ];
    let set = ProtocolSet::from_tags(&tags);
    for p in Protocol::all() {
        assert_eq!(set.contains(p), p == Protocol::Tor || p == Protocol::Ipfs);
    }
}

#[test]
fn set_insert_tells_whether_the_member_is_new() {
    let mut set = ProtocolSet::new();
    assert!(!set.contains(Protocol::Nym));
    assert!(set.insert(Protocol::Nym));
    assert!(!set.insert(Protocol::Nym));
    assert!(set.contains(Protocol::Nym));
    assert!(!set.contains(Protocol::Tor));
}
