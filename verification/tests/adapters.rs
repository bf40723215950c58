use chimera_node::adapters::cjdns::CjdnsAdapter;
use chimera_node::adapters::freenet::FreenetAdapter;
use chimera_node::adapters::gnunet::GnunetAdapter;
use chimera_node::adapters::i2p::I2pAdapter;
use chimera_node::adapters::ipfs::IpfsAdapter;
use chimera_node::adapters::lokinet::LokinetAdapter;
use chimera_node::adapters::meek::MeekAdapter;
use chimera_node::adapters::mysterium::MysteriumAdapter;
use chimera_node::adapters::nym::NymAdapter;
use chimera_node::adapters::obfs4::Obfs4Adapter;
use chimera_node::adapters::outline::OutlineAdapter;
use chimera_node::adapters::retroshare::RetroShareAdapter;
use chimera_node::adapters::session::SessionAdapter;
use chimera_node::adapters::snowflake::SnowflakeAdapter;
use chimera_node::adapters::tor::TorAdapter;
use chimera_node::adapters::tribler::TriblerAdapter;
use chimera_node::adapters::v2ray::V2RayAdapter;
use chimera_node::adapters::wireguard::WireGuardAdapter;
use chimera_node::adapters::yggdrasil::YggdrasilAdapter;
use chimera_node::adapters::zeronet::ZeroNetAdapter;
use chimera_node::adapters::{
    status_is_success, AdapterState, EnvVar, FileCopy, HttpMethod, HttpProbe, Launch, Lifecycle,
    ProtocolAdapter, StartAction, StartError, StartOutcome, Started, StopAction, Verdict,
};
use chimera_node::config::Settings;

fn strings(items: &[&str]) -> Vec<String> {
    items.iter().map(|s| s.to_string()).collect()
}

fn plain(program: &str, args: &[&str]) -> Launch {
    Launch {
        program: program.to_string(),
        args: strings(args),
        env: Vec::new(),
        data_dir: None,
        template: None,
        stdin_file: None,
        skip_if_missing: false,
        capture_output: false,
    }
}

fn var(name: &str, value: &str) -> EnvVar {
    EnvVar { name: name.to_string(), value: value.to_string() }
}

#[test]
fn tor_launch() {
    let mut tor = TorAdapter::new(Settings::new().tor);
    let expected = Launch {
        data_dir: Some("data/tor".to_string()),
        skip_if_missing: true,
        capture_output: true,
        ..plain(
            "bin/tor.exe",
            &["--SocksPort", "9052", "--ControlPort", "9051", "--DataDirectory", "data/tor"],
        )
    };
    assert_eq!(tor.start(), StartAction::Spawn(expected));
    assert_eq!(tor.life.state, AdapterState::Starting);
    assert_eq!(tor.get_proxy_addr(), "127.0.0.1:9052");
}

#[test]
fn tor_launch_under_chaining() {
    let mut settings = Settings::new().tor;
    settings.upstream_proxy = Some("127.0.0.1:1080".to_string());
    let mut tor = TorAdapter::new(settings);
    match tor.start() {
        StartAction::Spawn(launch) => assert_eq!(
            launch.args,
            strings(&[
                "--SocksPort",
                "9052",
                "--ControlPort",
                "9051",
                "--DataDirectory",
                "data/tor",
                "--Socks5Proxy",
                "127.0.0.1:1080",
            ])
        ),
        other => panic!("unexpected action {:?}", other),
    }
}

#[test]
fn spawn_lifecycle() {
    let mut tor = TorAdapter::new(Settings::new().tor);
    assert_eq!(tor.life.state, AdapterState::Idle);
    assert!(!tor.is_healthy());

    // A missing binary is no error: the adapter goes back to idle.
    assert!(matches!(tor.start(), StartAction::Spawn(_)));
    assert_eq!(tor.finish_start(StartOutcome::Missing), Ok(Started::Unavailable));
    assert_eq!(tor.life.state, AdapterState::Idle);
    assert!(!tor.is_healthy());

    // A failed launch is an error.
    assert!(matches!(tor.start(), StartAction::Spawn(_)));
    assert_eq!(tor.finish_start(StartOutcome::Failed), Err(StartError::Failed));
    assert_eq!(tor.life.state, AdapterState::Idle);

    // An outcome that answers another question is an error too.
    assert!(matches!(tor.start(), StartAction::Spawn(_)));
    assert_eq!(tor.finish_start(StartOutcome::Status(200)), Err(StartError::Failed));

    // A live process.
    assert!(matches!(tor.start(), StartAction::Spawn(_)));
    assert_eq!(tor.life.state, AdapterState::Starting);
    assert_eq!(tor.start(), StartAction::Nothing);
    assert_eq!(tor.finish_start(StartOutcome::Up), Ok(Started::Running));
    assert_eq!(tor.life.state, AdapterState::Running);
    assert!(tor.is_healthy());

    // Starting again changes nothing.
    assert_eq!(tor.start(), StartAction::Nothing);
    assert_eq!(tor.life.state, AdapterState::Running);
    assert_eq!(tor.finish_start(StartOutcome::Up), Err(StartError::OutOfTurn));
    assert_eq!(tor.life.state, AdapterState::Running);

    // The process exits.
    tor.mark_lost();
    assert_eq!(tor.life.state, AdapterState::Degraded);
    assert!(!tor.is_healthy());

    // Stop lets go of the handle, once.
    assert_eq!(tor.stop(), StopAction::Kill);
    assert_eq!(tor.life.state, AdapterState::Stopped);
    assert_eq!(tor.stop(), StopAction::Nothing);
    assert_eq!(tor.life.state, AdapterState::Stopped);
    tor.mark_lost();
    assert_eq!(tor.life.state, AdapterState::Stopped);

    // A stopped adapter can be started again.
    assert!(matches!(tor.start(), StartAction::Spawn(_)));
}

#[test]
fn disabled_adapter_does_nothing() {
    let mut settings = Settings::new().tor;
    settings.enabled = false;
    let mut tor = TorAdapter::new(settings);
    assert_eq!(tor.start(), StartAction::Nothing);
    assert_eq!(tor.life.state, AdapterState::Idle);
    assert_eq!(tor.stop(), StopAction::Nothing);
    assert_eq!(tor.life.state, AdapterState::Stopped);
}

#[test]
fn i2p_launch() {
    let mut i2p = I2pAdapter::new(Settings::new().i2p);
    let expected = Launch {
        data_dir: Some("data/i2p".to_string()),
        skip_if_missing: true,
        capture_output: true,
        ..plain(
            "bin/i2pd.exe",
            &["--socksproxy.port=4447", "--httpproxy.port=4444", "--datadir=data/i2p"],
        )
    };
    assert_eq!(i2p.start(), StartAction::Spawn(expected));
    assert_eq!(i2p.get_proxy_addr(), "127.0.0.1:4447");
    assert_eq!(i2p.finish_start(StartOutcome::Up), Ok(Started::Running));
    assert_eq!(i2p.stop(), StopAction::Kill);
}

#[test]
fn lokinet_launch() {
    let mut settings = Settings::new().lokinet;
    settings.enabled = true;
    let mut lokinet = LokinetAdapter::new(settings);
    let expected = Launch {
        data_dir: Some("data/lokinet".to_string()),
        template: Some(FileCopy {
            from: "chimera.lokinet.ini".to_string(),
            to: "data/lokinet/lokinet.ini".to_string(),
        }),
        skip_if_missing: true,
        ..plain("bin/lokinet.exe", &["data/lokinet/lokinet.ini"])
    };
    assert_eq!(lokinet.start(), StartAction::Spawn(expected));
    assert_eq!(lokinet.get_proxy_addr(), "127.0.0.1:1090");
}

#[test]
fn nym_needs_a_provider() {
    let mut settings = Settings::new().nym;
    settings.enabled = true;
    let mut nym = NymAdapter::new(settings.clone());
    assert_eq!(nym.start(), StartAction::Nothing);
    assert_eq!(nym.life.state, AdapterState::Idle);

    settings.upstream_provider = Some("provider.address@gateway".to_string());
    let mut nym = NymAdapter::new(settings);
    assert_eq!(
        nym.start(),
        StartAction::Mixnet {
            provider: "provider.address@gateway".to_string(),
            data_dir: "data/nym".to_string(),
        }
    );
    assert_eq!(nym.finish_start(StartOutcome::Failed), Err(StartError::Failed));
    let _ = nym.start();
    assert_eq!(nym.finish_start(StartOutcome::Up), Ok(Started::Running));
    assert!(nym.is_healthy());
    assert_eq!(nym.get_proxy_addr(), "127.0.0.1:1080");
    assert_eq!(nym.stop(), StopAction::Disconnect);
}

#[test]
fn ipfs_probe() {
    let mut settings = Settings::new().ipfs;
    settings.enabled = true;
    let mut ipfs = IpfsAdapter::new(settings);
    assert_eq!(
        ipfs.start(),
        StartAction::Http(HttpProbe {
            method: HttpMethod::Post,
            url: "http://127.0.0.1:5001/api/v0/id".to_string(),
            header: None,
            basic_auth: None,
        })
    );
    assert_eq!(ipfs.finish_start(StartOutcome::Status(500)), Ok(Started::Unavailable));
    assert_eq!(ipfs.life.state, AdapterState::Idle);
    let _ = ipfs.start();
    assert_eq!(ipfs.finish_start(StartOutcome::Failed), Ok(Started::Unavailable));
    let _ = ipfs.start();
    assert_eq!(ipfs.finish_start(StartOutcome::Status(199)), Ok(Started::Unavailable));
    let _ = ipfs.start();
    assert_eq!(ipfs.finish_start(StartOutcome::Status(300)), Ok(Started::Unavailable));
    let _ = ipfs.start();
    assert_eq!(ipfs.finish_start(StartOutcome::Status(299)), Ok(Started::Running));
    assert_eq!(ipfs.life.state, AdapterState::Running);
    assert_eq!(ipfs.get_proxy_addr(), "127.0.0.1:8080");
    assert_eq!(ipfs.stop(), StopAction::Disconnect);
}

#[test]
fn zeronet_probe_needs_a_successful_answer() {
    let mut settings = Settings::new().zeronet;
    settings.enabled = true;
    let mut zeronet = ZeroNetAdapter::new(settings);
    assert_eq!(
        zeronet.start(),
        StartAction::Http(HttpProbe {
            method: HttpMethod::Get,
            url: "http://127.0.0.1:43110/ZeroNet-Internal/Stats".to_string(),
            header: None,
            basic_auth: None,
        })
    );
    assert_eq!(zeronet.finish_start(StartOutcome::Status(403)), Ok(Started::Unavailable));
    assert_eq!(zeronet.life.state, AdapterState::Idle);
    assert!(!zeronet.is_healthy());
    let _ = zeronet.start();
    assert_eq!(zeronet.finish_start(StartOutcome::Status(500)), Ok(Started::Unavailable));
    assert!(!zeronet.is_healthy());
    let _ = zeronet.start();
    assert_eq!(zeronet.finish_start(StartOutcome::Failed), Ok(Started::Unavailable));
    assert_eq!(zeronet.life.state, AdapterState::Idle);
    assert!(!zeronet.is_healthy());
    let _ = zeronet.start();
    assert_eq!(zeronet.finish_start(StartOutcome::Status(200)), Ok(Started::Running));
    assert_eq!(zeronet.life.state, AdapterState::Running);
    assert!(zeronet.is_healthy());
    assert_eq!(zeronet.get_proxy_addr(), "http://127.0.0.1:43110");
}

#[test]
fn retroshare_probe() {
    let mut settings = Settings::new().retroshare;
    settings.enabled = true;
    let mut plain_probe = RetroShareAdapter::new(settings.clone());
    assert_eq!(
        plain_probe.start(),
        StartAction::Http(HttpProbe {
            method: HttpMethod::Get,
            url: "http://127.0.0.1:9090".to_string(),
            header: None,
            basic_auth: None,
        })
    );
    assert_eq!(plain_probe.finish_start(StartOutcome::Status(401)), Ok(Started::Unavailable));
    assert_eq!(plain_probe.get_proxy_addr(), "http://127.0.0.1:9090");

    settings.user = Some("alice".to_string());
    settings.password = Some("secret".to_string());
    let mut with_auth = RetroShareAdapter::new(settings.clone());
    assert_eq!(
        with_auth.start(),
        StartAction::Http(HttpProbe {
            method: HttpMethod::Get,
            url: "http://127.0.0.1:9090".to_string(),
            header: None,
            basic_auth: Some(var("alice", "secret")),
        })
    );
    assert_eq!(with_auth.finish_start(StartOutcome::Status(200)), Ok(Started::Running));

    settings.password = None;
    let mut without_password = RetroShareAdapter::new(settings);
    match without_password.start() {
        StartAction::Http(probe) => assert_eq!(probe.basic_auth, Some(var("alice", ""))),
        other => panic!("unexpected action {:?}", other),
    }
}

#[test]
fn tribler_probe() {
    let mut settings = Settings::new().tribler;
    settings.enabled = true;
    settings.api_key = Some("k3y".to_string());
    let mut tribler = TriblerAdapter::new(settings);
    assert_eq!(
        tribler.start(),
        StartAction::Http(HttpProbe {
            method: HttpMethod::Get,
            url: "http://127.0.0.1:8085/variables".to_string(),
            header: Some(var("X-Api-Key", "k3y")),
            basic_auth: None,
        })
    );
    assert_eq!(tribler.finish_start(StartOutcome::Status(401)), Ok(Started::Running));
    assert_eq!(tribler.get_proxy_addr(), "http://127.0.0.1:8085");
}

#[test]
fn freenet_hello() {
    let mut settings = Settings::new().freenet;
    settings.enabled = true;
    let mut freenet = FreenetAdapter::new(settings);
    assert_eq!(
        freenet.start(),
        StartAction::Hello {
            host: "127.0.0.1".to_string(),
            port: 9481,
            message: "ClientHello\nName=Chimera\nExpectedVersion=2.0\nEndMessage\n".to_string(),
        }
    );
    let reply = b"NodeHello\nFCPVersion=2.0\nEndMessage\n".to_vec();
    assert_eq!(freenet.finish_start(StartOutcome::Reply(reply)), Ok(Started::Running));
    assert_eq!(freenet.get_proxy_addr(), "127.0.0.1:8888");
    let _ = freenet.stop();

    let _ = freenet.start();
    let refusal = b"ProtocolError\nCode=1\nEndMessage\n".to_vec();
    assert_eq!(freenet.finish_start(StartOutcome::Reply(refusal)), Ok(Started::Unavailable));
    let _ = freenet.start();
    assert_eq!(freenet.finish_start(StartOutcome::Failed), Ok(Started::Unavailable));
}

#[test]
fn freenet_greeting_is_found_anywhere_in_the_reply() {
    assert!(FreenetAdapter::reply_greets(&b"NodeHello".to_vec()));
    assert!(FreenetAdapter::reply_greets(&b"xxNodeHelloxx".to_vec()));
    assert!(FreenetAdapter::reply_greets(&b"NodeHellNodeHello".to_vec()));
    assert!(!FreenetAdapter::reply_greets(&b"NodeHell".to_vec()));
    assert!(!FreenetAdapter::reply_greets(&b"nodehello".to_vec()));
    assert!(!FreenetAdapter::reply_greets(&Vec::new()));
}

#[test]
fn gnunet_check() {
    let mut settings = Settings::new().gnunet;
    settings.enabled = true;
    let mut gnunet = GnunetAdapter::new(settings);
    assert_eq!(gnunet.start(), StartAction::Check(plain("gnunet-arm", &["-I"])));
    assert_eq!(gnunet.finish_start(StartOutcome::Exited(false)), Ok(Started::Unavailable));
    let _ = gnunet.start();
    assert_eq!(gnunet.finish_start(StartOutcome::Failed), Ok(Started::Unavailable));
    let _ = gnunet.start();
    assert_eq!(gnunet.finish_start(StartOutcome::Exited(true)), Ok(Started::Running));
    assert_eq!(gnunet.get_proxy_addr(), "127.0.0.1:2080");
}

#[test]
fn tunnel_back_ends_offer_no_proxy() {
    assert_eq!(WireGuardAdapter::new(true, "wg-quick".into(), "wg0".into(), None).get_proxy_addr(), "");
    assert_eq!(YggdrasilAdapter::new(true, "yggdrasil".into(), None).get_proxy_addr(), "");
    assert_eq!(CjdnsAdapter::new(true, "cjdroute".into(), None).get_proxy_addr(), "");
    assert_eq!(SessionAdapter::new(true, "session".into()).get_proxy_addr(), "");
    assert_eq!(MeekAdapter::new(true, "meek".into(), "cdn.example".into()).get_proxy_addr(), "");
    assert_eq!(Obfs4Adapter::new(true, "obfs4proxy".into(), 443).get_proxy_addr(), "");
    assert_eq!(
        SnowflakeAdapter::new(true, "snowflake".into(), "https://broker".into()).get_proxy_addr(),
        ""
    );
}

#[test]
fn wireguard_up_and_down() {
    let mut wg = WireGuardAdapter::new(true, "wg-quick".into(), "wg0".into(), None);
    assert_eq!(wg.start(), StartAction::Spawn(plain("wg-quick", &["up", "wg0.conf"])));
    assert_eq!(wg.finish_start(StartOutcome::Up), Ok(Started::Running));
    assert_eq!(wg.stop(), StopAction::Run(plain("wg-quick", &["down", "wg0.conf"])));
    assert_eq!(wg.stop(), StopAction::Nothing);

    let mut wg =
        WireGuardAdapter::new(true, "wg-quick".into(), "wg1".into(), Some("/etc/wg1.conf".into()));
    assert_eq!(wg.start(), StartAction::Spawn(plain("wg-quick", &["up", "/etc/wg1.conf"])));
    assert_eq!(wg.stop(), StopAction::Run(plain("wg-quick", &["down", "/etc/wg1.conf"])));
}

#[test]
fn other_launches() {
    let mut ygg = YggdrasilAdapter::new(true, "yggdrasil".into(), None);
    assert_eq!(
        ygg.start(),
        StartAction::Spawn(plain("yggdrasil", &["-useconffile", "yggdrasil.conf"]))
    );
    let mut ygg = YggdrasilAdapter::new(true, "yggdrasil".into(), Some("y.conf".into()));
    assert_eq!(ygg.start(), StartAction::Spawn(plain("yggdrasil", &["-useconffile", "y.conf"])));

    let mut cjdns = CjdnsAdapter::new(true, "cjdroute".into(), None);
    assert_eq!(
        cjdns.start(),
        StartAction::Spawn(Launch {
            stdin_file: Some("cjdroute.conf".to_string()),
            ..plain("cjdroute", &[])
        })
    );

    let mut session = SessionAdapter::new(true, "session".into());
    assert_eq!(session.start(), StartAction::Spawn(plain("session", &[])));

    let mut snowflake = SnowflakeAdapter::new(true, "snowflake".into(), "https://broker".into());
    assert_eq!(
        snowflake.start(),
        StartAction::Spawn(plain("snowflake", &["-url", "https://broker"]))
    );

    let mut mysterium = MysteriumAdapter::new(true, "myst".into(), 4050);
    assert_eq!(
        mysterium.start(),
        StartAction::Spawn(plain("myst", &["service", "--agreed-terms-and-conditions"]))
    );
    assert_eq!(mysterium.get_proxy_addr(), "127.0.0.1:4050");

    let mut outline = OutlineAdapter::new(true, "outline".into(), None, 1081);
    assert_eq!(outline.start(), StartAction::Spawn(plain("outline", &["-local_port", "1081"])));
    let mut outline = OutlineAdapter::new(true, "outline".into(), Some("o.json".into()), 1081);
    assert_eq!(
        outline.start(),
        StartAction::Spawn(plain("outline", &["-local_port", "1081", "-config", "o.json"]))
    );
    assert_eq!(outline.get_proxy_addr(), "127.0.0.1:1081");

    let mut v2ray = V2RayAdapter::new(true, "v2ray".into(), Some("v.json".into()), 1082);
    assert_eq!(v2ray.start(), StartAction::Spawn(plain("v2ray", &["run", "-c", "v.json"])));
    let mut v2ray = V2RayAdapter::new(true, "v2ray".into(), None, 1082);
    assert_eq!(v2ray.start(), StartAction::Spawn(plain("v2ray", &["run"])));
    assert_eq!(v2ray.get_proxy_addr(), "127.0.0.1:1082");
}

#[test]
fn pluggable_transports_get_their_environment() {
    let mut meek = MeekAdapter::new(true, "meek".into(), "cdn.example".into());
    assert_eq!(
        meek.start(),
        StartAction::Spawn(Launch {
            env: vec![
                var("TOR_PT_MANAGED_TRANSPORT_VER", "1"),
                var("TOR_PT_STATE_LOCATION", "data/meek"),
                var("TOR_PT_CLIENT_TRANSPORTS", "meek_lite"),
            ],
            ..plain("meek", &[])
        })
    );
    let mut obfs4 = Obfs4Adapter::new(true, "obfs4proxy".into(), 443);
    assert_eq!(
        obfs4.start(),
        StartAction::Spawn(Launch {
            env: vec![
                var("TOR_PT_MANAGED_TRANSPORT_VER", "1"),
                var("TOR_PT_STATE_LOCATION", "data/obfs4"),
                var("TOR_PT_SERVER_TRANSPORTS", "obfs4"),
            ],
            ..plain("obfs4proxy", &[])
        })
    );
    let mut disabled = Obfs4Adapter::new(false, "obfs4proxy".into(), 443);
    assert_eq!(disabled.start(), StartAction::Nothing);
}

#[test]
fn lifecycle_on_its_own() {
    let mut life = Lifecycle::new();
    assert!(!life.begin(false));
    assert_eq!(life.state, AdapterState::Idle);
    assert!(life.begin(true));
    assert!(!life.begin(true));
    assert_eq!(life.settle(Verdict::Absent), Ok(Started::Unavailable));
    assert!(!life.halt());
    assert!(life.begin(true));
    assert_eq!(life.settle(Verdict::Up), Ok(Started::Running));
    assert!(life.healthy());
    assert!(life.halt());
    assert!(!life.healthy());
}

#[test]
fn success_class() {
    assert!(!status_is_success(199));
    assert!(status_is_success(200));
    assert!(status_is_success(299));
    assert!(!status_is_success(300));
    assert!(!status_is_success(0));
}
