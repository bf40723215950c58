use chimera_node::adapters::{
    AdapterState, StartAction, StartError, StartOutcome, Started, StopAction,
};
use chimera_node::config::{ChainMode, Settings};
use chimera_node::health_monitor::{HealthChange, Protocol, ProtocolSet};
use chimera_node::process_manager::{ProcessManager, StartStep, StopStep};

fn set_of(protocols: &[Protocol]) -> ProtocolSet {
    let mut s = ProtocolSet::new();
    for p in protocols {
        s.insert(*p);
    }
    s
}

fn manager(mode: ChainMode, enabled: &[Protocol], settings: Settings) -> ProcessManager {
    ProcessManager::new(
        mode,
        set_of(enabled),
        settings.tor,
        settings.i2p,
        settings.nym,
        settings.lokinet,
        settings.ipfs,
        settings.zeronet,
        settings.freenet,
        settings.retroshare,
        settings.gnunet,
        settings.tribler,
    )
}

#[test]
fn tor_over_nym_starts_nym_then_waits_then_starts_tor() {
    let pm = manager(ChainMode::TorOverNym, &[Protocol::Tor, Protocol::Nym], Settings::new());
    assert_eq!(
        pm.start_processes(),
        vec![
            StartStep::Start(Protocol::Nym),
            StartStep::Delay(2),
            StartStep::Start(Protocol::Tor),
            StartStep::Monitor(Protocol::Tor, 5),
            StartStep::Monitor(Protocol::Nym, 5),
        ]
    );
}

#[test]
fn nym_over_tor_starts_tor_then_waits_then_starts_nym() {
    let pm = manager(ChainMode::NymOverTor, &[Protocol::Nym, Protocol::Tor], Settings::new());
    assert_eq!(
        pm.start_processes(),
        vec![
            StartStep::Start(Protocol::Tor),
            StartStep::Delay(2),
            StartStep::Start(Protocol::Nym),
            StartStep::Monitor(Protocol::Tor, 5),
            StartStep::Monitor(Protocol::Nym, 5),
        ]
    );
}

#[test]
fn chain_without_its_carrier_does_not_wait() {
    let pm = manager(ChainMode::TorOverNym, &[Protocol::Tor], Settings::new());
    assert_eq!(
        pm.start_processes(),
        vec![StartStep::Start(Protocol::Tor), StartStep::Monitor(Protocol::Tor, 5)]
    );
    let pm = manager(ChainMode::NymOverTor, &[Protocol::Nym], Settings::new());
    assert_eq!(
        pm.start_processes(),
        vec![StartStep::Start(Protocol::Nym), StartStep::Monitor(Protocol::Nym, 5)]
    );
}

#[test]
fn unchained_start_of_everything() {
    let all = [
        Protocol::Tribler,
        Protocol::GnuNet,
        Protocol::RetroShare,
        Protocol::Freenet,
        Protocol::ZeroNet,
        Protocol::Ipfs,
        Protocol::Lokinet,
        Protocol::I2p,
        Protocol::Nym,
        Protocol::Tor,
    ];
    let pm = manager(ChainMode::Unchained, &all, Settings::new());
    assert_eq!(
        pm.start_processes(),
        vec![
            StartStep::Start(Protocol::Tor),
            StartStep::Start(Protocol::Nym),
            StartStep::Start(Protocol::I2p),
            StartStep::Start(Protocol::Lokinet),
            StartStep::Start(Protocol::Ipfs),
            StartStep::Start(Protocol::ZeroNet),
            StartStep::Start(Protocol::Freenet),
            StartStep::Start(Protocol::RetroShare),
            StartStep::Start(Protocol::GnuNet),
            StartStep::Start(Protocol::Tribler),
            StartStep::Monitor(Protocol::Tor, 5),
            StartStep::Monitor(Protocol::I2p, 5),
            StartStep::Monitor(Protocol::Nym, 5),
            StartStep::Monitor(Protocol::Lokinet, 5),
            StartStep::Monitor(Protocol::Ipfs, 5),
            StartStep::Monitor(Protocol::ZeroNet, 5),
            StartStep::Monitor(Protocol::Freenet, 5),
            StartStep::Monitor(Protocol::RetroShare, 5),
            StartStep::Monitor(Protocol::GnuNet, 5),
            StartStep::Monitor(Protocol::Tribler, 5),
        ]
    );
}

#[test]
fn nothing_enabled_nothing_to_do() {
    let pm = manager(ChainMode::TorOverNym, &[], Settings::new());
    assert_eq!(pm.start_processes(), Vec::<StartStep>::new());
}

#[test]
fn new_manager_is_idle_and_unhealthy() {
    let pm = manager(ChainMode::Unchained, &[Protocol::Tor], Settings::new());
    assert_eq!(pm.tor_adapter.life.state, AdapterState::Idle);
    assert_eq!(pm.tribler_adapter.life.state, AdapterState::Idle);
    for p in Protocol::all() {
        assert_eq!(pm.health_state.get(p), Some(false));
        assert!(!pm.health_state.is_healthy(p));
    }
    assert!(pm.enabled_protocols.contains(Protocol::Tor));
    assert!(!pm.enabled_protocols.contains(Protocol::I2p));
}

#[test]
fn probe_follows_the_adapter() {
    let mut pm = manager(ChainMode::Unchained, &[Protocol::Tor], Settings::new());
    assert_eq!(pm.probe(Protocol::Tor), HealthChange::Steady);
    assert!(!pm.health_state.is_healthy(Protocol::Tor));

    assert!(matches!(pm.start_adapter(Protocol::Tor), StartAction::Spawn(_)));
    assert_eq!(pm.tor_adapter.life.state, AdapterState::Starting);
    assert_eq!(pm.probe(Protocol::Tor), HealthChange::Steady);

    assert_eq!(pm.finish_start(Protocol::Tor, StartOutcome::Up), Ok(Started::Running));
    assert_eq!(pm.probe(Protocol::Tor), HealthChange::Recovered);
    assert!(pm.health_state.is_healthy(Protocol::Tor));
    assert_eq!(pm.probe(Protocol::Tor), HealthChange::Steady);
    assert!(!pm.health_state.is_healthy(Protocol::I2p));

    pm.mark_lost(Protocol::Tor);
    assert_eq!(pm.tor_adapter.life.state, AdapterState::Degraded);
    assert!(pm.health_state.is_healthy(Protocol::Tor));
    assert_eq!(pm.probe(Protocol::Tor), HealthChange::Lost);
    assert!(!pm.health_state.is_healthy(Protocol::Tor));
}

#[test]
fn a_failed_start_does_not_stop_the_others() {
    let mut settings = Settings::new();
    settings.ipfs.enabled = true;
    let mut pm = manager(ChainMode::Unchained, &[Protocol::Tor, Protocol::Ipfs], settings);
    let _ = pm.start_adapter(Protocol::Tor);
    assert_eq!(pm.finish_start(Protocol::Tor, StartOutcome::Failed), Err(StartError::Failed));
    assert_eq!(pm.tor_adapter.life.state, AdapterState::Idle);
    let _ = pm.start_adapter(Protocol::Ipfs);
    assert_eq!(pm.finish_start(Protocol::Ipfs, StartOutcome::Status(200)), Ok(Started::Running));
    assert_eq!(pm.ipfs_adapter.life.state, AdapterState::Running);
}

#[test]
fn outcome_without_a_start_is_out_of_turn() {
    let mut pm = manager(ChainMode::Unchained, &[Protocol::Tor], Settings::new());
    assert_eq!(pm.finish_start(Protocol::Tor, StartOutcome::Up), Err(StartError::OutOfTurn));
    assert_eq!(pm.tor_adapter.life.state, AdapterState::Idle);
}

#[test]
fn stop_lets_go_of_everything() {
    let mut settings = Settings::new();
    settings.ipfs.enabled = true;
    let mut pm = manager(ChainMode::Unchained, &[Protocol::Tor, Protocol::Ipfs], settings);
    let _ = pm.start_adapter(Protocol::Tor);
    let _ = pm.finish_start(Protocol::Tor, StartOutcome::Up);
    let _ = pm.start_adapter(Protocol::Ipfs);
    let _ = pm.finish_start(Protocol::Ipfs, StartOutcome::Status(204));
    let _ = pm.probe(Protocol::Tor);
    assert!(pm.health_state.is_healthy(Protocol::Tor));

    let steps = pm.stop_processes();
    let expected: Vec<StopStep> = Protocol::all()
        .into_iter()
        .map(|p| StopStep {
            protocol: p,
            action: match p {
                Protocol::Tor => StopAction::Kill,
                Protocol::Ipfs => StopAction::Disconnect,
                _ => StopAction::Nothing,
            },
        })
        .collect();
    assert_eq!(steps, expected);
    assert_eq!(pm.tor_adapter.life.state, AdapterState::Stopped);
    assert_eq!(pm.i2p_adapter.life.state, AdapterState::Stopped);
    assert_eq!(pm.ipfs_adapter.life.state, AdapterState::Stopped);
    assert_eq!(pm.tribler_adapter.life.state, AdapterState::Stopped);
    for p in Protocol::all() {
        assert_eq!(pm.health_state.get(p), None);
        assert!(!pm.health_state.is_healthy(p));
    }

    // A second stop finds nothing to let go of.
    let again = pm.stop_processes();
    assert!(again.iter().all(|s| s.action == StopAction::Nothing));
}

#[test]
fn proxy_addresses_by_back_end() {
    let pm = manager(ChainMode::Unchained, &[], Settings::new());
    assert_eq!(pm.get_proxy_addr(Protocol::Tor), "127.0.0.1:9052");
    assert_eq!(pm.get_proxy_addr(Protocol::I2p), "127.0.0.1:4447");
    assert_eq!(pm.get_proxy_addr(Protocol::Nym), "127.0.0.1:1080");
    assert_eq!(pm.get_proxy_addr(Protocol::Lokinet), "127.0.0.1:1090");
    assert_eq!(pm.get_proxy_addr(Protocol::Ipfs), "127.0.0.1:8080");
    assert_eq!(pm.get_proxy_addr(Protocol::ZeroNet), "http://127.0.0.1:43110");
    assert_eq!(pm.get_proxy_addr(Protocol::Freenet), "127.0.0.1:8888");
    assert_eq!(pm.get_proxy_addr(Protocol::GnuNet), "127.0.0.1:2080");
    assert_eq!(pm.get_proxy_addr(Protocol::RetroShare), "http://127.0.0.1:9090");
    assert_eq!(pm.get_proxy_addr(Protocol::Tribler), "http://127.0.0.1:8085");
}

#[test]
fn tor_over_nym_hands_tor_the_endpoint_of_nym() {
    let mut settings = Settings::new();
    settings.nym.socks_port = 1085;
    let mut pm = manager(ChainMode::TorOverNym, &[Protocol::Tor, Protocol::Nym], settings);
    assert_eq!(pm.tor_adapter.settings.upstream_proxy, Some("127.0.0.1:1085".to_string()));
    match pm.start_adapter(Protocol::Tor) {
        StartAction::Spawn(launch) => {
            let n = launch.args.len();
            assert_eq!(launch.args[n - 2], "--Socks5Proxy");
            assert_eq!(launch.args[n - 1], "127.0.0.1:1085");
        }
        other => panic!("unexpected action {:?}", other),
    }
}

#[test]
fn configured_upstream_of_tor_is_kept() {
    let mut settings = Settings::new();
    settings.tor.upstream_proxy = Some("10.0.0.1:9999".to_string());
    let pm = manager(ChainMode::TorOverNym, &[Protocol::Tor], settings.clone());
    assert_eq!(pm.tor_adapter.settings, settings.tor);
}

#[test]
fn other_modes_leave_tor_as_configured() {
    let pm = manager(ChainMode::Unchained, &[Protocol::Tor], Settings::new());
    assert_eq!(pm.tor_adapter.settings, Settings::new().tor);
    let pm = manager(ChainMode::NymOverTor, &[Protocol::Tor], Settings::new());
    assert_eq!(pm.tor_adapter.settings, Settings::new().tor);
}

#[test]
fn enabled_set_follows_the_settings() {
    let mut settings = Settings::new();
    settings.freenet.enabled = true;
    settings.i2p.enabled = false;
    let set = chimera_node::process_manager::enabled_protocols(&settings);
    for p in Protocol::all() {
        assert_eq!(set.contains(p), p == Protocol::Tor || p == Protocol::Freenet);
    }
}
