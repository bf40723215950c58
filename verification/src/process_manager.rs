//! The supervisor: which back-ends are brought up, in which order, and how
//! they are watched and let go of.

use vstd::prelude::*;
use crate::adapters::freenet::FreenetAdapter;
use crate::adapters::gnunet::GnunetAdapter;
use crate::adapters::i2p::I2pAdapter;
use crate::adapters::ipfs::IpfsAdapter;
use crate::adapters::lokinet::LokinetAdapter;
use crate::adapters::nym::NymAdapter;
use crate::adapters::retroshare::RetroShareAdapter;
use crate::adapters::tor::TorAdapter;
use crate::adapters::tribler::TriblerAdapter;
use crate::adapters::zeronet::ZeroNetAdapter;
use crate::adapters::{
    holds_handle, settled, start_result, will_start, AdapterState, ProtocolAdapter, StartAction,
    StartActionView, StartError, StartOutcome, StartOutcomeView, Started, StopAction,
    StopActionView, Verdict,
};
use crate::config::{
    ChainMode, FreenetSettings, GnunetSettings, I2pSettings, IpfsSettings, LokinetSettings,
    NymSettings, RetroShareSettings, Settings, TorSettings, TriblerSettings, ZeroNetSettings,
};
use crate::text::{decimal, with_decimal};
use crate::health_monitor::{
    all_protocols, change_between, new_health_state, reported, run_health_monitor, HealthChange,
    HealthState, Protocol, ProtocolSet,
};

verus! {

/// Seconds to wait between the two starts of a chain.
pub const CHAIN_DELAY_SECS: u64 = 2;

/// Seconds between two probes of one back-end.
pub const PROBE_INTERVAL_SECS: u64 = 5;

/// One step of bringing the back-ends up.
#[derive(Debug, Clone, Copy, PartialEq, Eq, Structural)]
pub enum StartStep {
    /// Start the adapter of this back-end; a failure is logged and passed
    /// over.
    Start(Protocol),
    /// Wait this many seconds.
    Delay(u64),
    /// Launch the probe task of this back-end, with this many seconds
    /// between probes.
    Monitor(Protocol, u64),
}

/// One step of letting the back-ends go.
#[derive(Debug, Clone, PartialEq, Eq)]
pub struct StopStep {
    pub protocol: Protocol,
    pub action: StopAction,
}

/// `Start(p)` if `p` is enabled, else nothing.
pub open spec fn start_if(enabled: Set<Protocol>, p: Protocol) -> Seq<StartStep> {
    if enabled.contains(p) {
        seq![StartStep::Start(p)]
    } else {
        Seq::empty()
    }
}

/// `Start(p)` and the chain delay if `p` is enabled, else nothing.
pub open spec fn start_and_wait_if(enabled: Set<Protocol>, p: Protocol) -> Seq<StartStep> {
    if enabled.contains(p) {
        seq![StartStep::Start(p), StartStep::Delay(CHAIN_DELAY_SECS)]
    } else {
        Seq::empty()
    }
}

/// `Monitor(p, ..)` if `p` is enabled, else nothing.
pub open spec fn monitor_if(enabled: Set<Protocol>, p: Protocol) -> Seq<StartStep> {
    if enabled.contains(p) {
        seq![StartStep::Monitor(p, PROBE_INTERVAL_SECS)]
    } else {
        Seq::empty()
    }
}

/// The starts of Tor and Nym. In a chain the back-end that carries the
/// other starts first and is given time to come up.
pub open spec fn chain_steps(mode: ChainMode, enabled: Set<Protocol>) -> Seq<StartStep> {
    match mode {
        ChainMode::TorOverNym => start_and_wait_if(enabled, Protocol::Nym) + start_if(
            enabled,
            Protocol::Tor,
        ),
        ChainMode::NymOverTor => start_and_wait_if(enabled, Protocol::Tor) + start_if(
            enabled,
            Protocol::Nym,
        ),
        ChainMode::Unchained => start_if(enabled, Protocol::Tor) + start_if(
            enabled,
            Protocol::Nym,
        ),
    }
}

/// The starts of the other back-ends, in their fixed order.
pub open spec fn other_steps(enabled: Set<Protocol>) -> Seq<StartStep> {
    start_if(enabled, Protocol::I2p) + start_if(enabled, Protocol::Lokinet) + start_if(
        enabled,
        Protocol::Ipfs,
    ) + start_if(enabled, Protocol::ZeroNet) + start_if(enabled, Protocol::Freenet) + start_if(
        enabled,
        Protocol::RetroShare,
    ) + start_if(enabled, Protocol::GnuNet) + start_if(enabled, Protocol::Tribler)
}

/// One probe task for each enabled back-end.
pub open spec fn monitor_steps(enabled: Set<Protocol>) -> Seq<StartStep> {
    monitor_if(enabled, Protocol::Tor) + monitor_if(enabled, Protocol::I2p) + monitor_if(
        enabled,
        Protocol::Nym,
    ) + monitor_if(enabled, Protocol::Lokinet) + monitor_if(enabled, Protocol::Ipfs)
        + monitor_if(enabled, Protocol::ZeroNet) + monitor_if(enabled, Protocol::Freenet)
        + monitor_if(enabled, Protocol::RetroShare) + monitor_if(enabled, Protocol::GnuNet)
        + monitor_if(enabled, Protocol::Tribler)
}

/// Everything a start does, in order: the chain, the other back-ends, the
/// probe tasks.
pub open spec fn start_sequence(mode: ChainMode, enabled: Set<Protocol>) -> Seq<StartStep> {
    chain_steps(mode, enabled) + other_steps(enabled) + monitor_steps(enabled)
}

/// `wired` is what the Tor adapter is given for `tor` under `mode`. Tor over
/// Nym means that Tor reaches the network through Nym's SOCKS proxy: where
/// the settings name no upstream proxy for Tor, Nym's endpoint is put in.
/// Everything else is handed on as it is.
pub open spec fn carries_chain(
    mode: ChainMode,
    tor: TorSettings,
    nym: NymSettings,
    wired: TorSettings,
) -> bool {
    if mode == ChainMode::TorOverNym && tor.upstream_proxy is None {
        &&& wired.upstream_proxy is Some
        &&& wired.upstream_proxy->Some_0@ == "127.0.0.1:"@ + decimal(nym.socks_port as nat)
        &&& wired == (TorSettings { upstream_proxy: wired.upstream_proxy, ..tor })
    } else {
        wired == tor
    }
}

/// Whether the settings enable back-end `p`.
pub open spec fn enabled_in(settings: Settings, p: Protocol) -> bool {
    match p {
        Protocol::Tor => settings.tor.enabled,
        Protocol::I2p => settings.i2p.enabled,
        Protocol::Nym => settings.nym.enabled,
        Protocol::Lokinet => settings.lokinet.enabled,
        Protocol::Ipfs => settings.ipfs.enabled,
        Protocol::ZeroNet => settings.zeronet.enabled,
        Protocol::Freenet => settings.freenet.enabled,
        Protocol::GnuNet => settings.gnunet.enabled,
        Protocol::RetroShare => settings.retroshare.enabled,
        Protocol::Tribler => settings.tribler.enabled,
    }
}

/// The back-ends that the settings enable.
pub fn enabled_protocols(settings: &Settings) -> (r: ProtocolSet)
    ensures
        r@ == Set::new(|p: Protocol| enabled_in(*settings, p)),
{
    let mut r = ProtocolSet::new();
    if settings.tor.enabled {
        r.insert(Protocol::Tor);
    }
    if settings.i2p.enabled {
        r.insert(Protocol::I2p);
    }
    if settings.nym.enabled {
        r.insert(Protocol::Nym);
    }
    if settings.lokinet.enabled {
        r.insert(Protocol::Lokinet);
    }
    if settings.ipfs.enabled {
        r.insert(Protocol::Ipfs);
    }
    if settings.zeronet.enabled {
        r.insert(Protocol::ZeroNet);
    }
    if settings.freenet.enabled {
        r.insert(Protocol::Freenet);
    }
    if settings.gnunet.enabled {
        r.insert(Protocol::GnuNet);
    }
    if settings.retroshare.enabled {
        r.insert(Protocol::RetroShare);
    }
    if settings.tribler.enabled {
        r.insert(Protocol::Tribler);
    }
    assert(r@ =~= Set::new(|p: Protocol| enabled_in(*settings, p)));
    r
}

fn push_start(steps: &mut Vec<StartStep>, enabled: &ProtocolSet, p: Protocol)
    ensures
        final(steps)@ == old(steps)@ + start_if(enabled@, p),
{
    if enabled.contains(p) {
        steps.push(StartStep::Start(p));
    }
    assert(steps@ =~= old(steps)@ + start_if(enabled@, p));
}

fn push_start_and_wait(steps: &mut Vec<StartStep>, enabled: &ProtocolSet, p: Protocol)
    ensures
        final(steps)@ == old(steps)@ + start_and_wait_if(enabled@, p),
{
    if enabled.contains(p) {
        steps.push(StartStep::Start(p));
        steps.push(StartStep::Delay(CHAIN_DELAY_SECS));
    }
    assert(steps@ =~= old(steps)@ + start_and_wait_if(enabled@, p));
}

fn push_monitor(steps: &mut Vec<StartStep>, enabled: &ProtocolSet, p: Protocol)
    ensures
        final(steps)@ == old(steps)@ + monitor_if(enabled@, p),
{
    if enabled.contains(p) {
        steps.push(StartStep::Monitor(p, PROBE_INTERVAL_SECS));
    }
    assert(steps@ =~= old(steps)@ + monitor_if(enabled@, p));
}

fn chain_part(mode: ChainMode, enabled: &ProtocolSet) -> (steps: Vec<StartStep>)
    ensures
        steps@ == chain_steps(mode, enabled@),
{
    let mut steps: Vec<StartStep> = Vec::new();
    match mode {
        ChainMode::TorOverNym => {
            push_start_and_wait(&mut steps, enabled, Protocol::Nym);
            assert(steps@ =~= start_and_wait_if(enabled@, Protocol::Nym));
            push_start(&mut steps, enabled, Protocol::Tor);
        },
        ChainMode::NymOverTor => {
            push_start_and_wait(&mut steps, enabled, Protocol::Tor);
            assert(steps@ =~= start_and_wait_if(enabled@, Protocol::Tor));
            push_start(&mut steps, enabled, Protocol::Nym);
        },
        ChainMode::Unchained => {
            push_start(&mut steps, enabled, Protocol::Tor);
            assert(steps@ =~= start_if(enabled@, Protocol::Tor));
            push_start(&mut steps, enabled, Protocol::Nym);
        },
    }
    steps
}

fn other_part(enabled: &ProtocolSet) -> (steps: Vec<StartStep>)
    ensures
        steps@ == other_steps(enabled@),
{
    let mut steps: Vec<StartStep> = Vec::new();
    push_start(&mut steps, enabled, Protocol::I2p);
    assert(steps@ =~= start_if(enabled@, Protocol::I2p));
    push_start(&mut steps, enabled, Protocol::Lokinet);
    push_start(&mut steps, enabled, Protocol::Ipfs);
    push_start(&mut steps, enabled, Protocol::ZeroNet);
    push_start(&mut steps, enabled, Protocol::Freenet);
    push_start(&mut steps, enabled, Protocol::RetroShare);
    push_start(&mut steps, enabled, Protocol::GnuNet);
    push_start(&mut steps, enabled, Protocol::Tribler);
    steps
}

fn monitor_part(enabled: &ProtocolSet) -> (steps: Vec<StartStep>)
    ensures
        steps@ == monitor_steps(enabled@),
{
    let mut steps: Vec<StartStep> = Vec::new();
    push_monitor(&mut steps, enabled, Protocol::Tor);
    assert(steps@ =~= monitor_if(enabled@, Protocol::Tor));
    push_monitor(&mut steps, enabled, Protocol::I2p);
    push_monitor(&mut steps, enabled, Protocol::Nym);
    push_monitor(&mut steps, enabled, Protocol::Lokinet);
    push_monitor(&mut steps, enabled, Protocol::Ipfs);
    push_monitor(&mut steps, enabled, Protocol::ZeroNet);
    push_monitor(&mut steps, enabled, Protocol::Freenet);
    push_monitor(&mut steps, enabled, Protocol::RetroShare);
    push_monitor(&mut steps, enabled, Protocol::GnuNet);
    push_monitor(&mut steps, enabled, Protocol::Tribler);
    steps
}

/// Holds one adapter for each back-end, the set that was selected, and the
/// health map.
pub struct ProcessManager {
    pub chain_mode: ChainMode,
    pub tor_adapter: TorAdapter,
    pub i2p_adapter: I2pAdapter,
    pub nym_adapter: NymAdapter,
    pub lokinet_adapter: LokinetAdapter,
    pub ipfs_adapter: IpfsAdapter,
    pub zeronet_adapter: ZeroNetAdapter,
    pub freenet_adapter: FreenetAdapter,
    pub retroshare_adapter: RetroShareAdapter,
    pub gnunet_adapter: GnunetAdapter,
    pub tribler_adapter: TriblerAdapter,
    pub health_state: HealthState,
    pub enabled_protocols: ProtocolSet,
}

impl ProcessManager {
    /// The state of the adapter of `p`.
    pub open spec fn state_of(&self, p: Protocol) -> AdapterState {
        match p {
            Protocol::Tor => self.tor_adapter.state(),
            Protocol::I2p => self.i2p_adapter.state(),
            Protocol::Nym => self.nym_adapter.state(),
            Protocol::Lokinet => self.lokinet_adapter.state(),
            Protocol::Ipfs => self.ipfs_adapter.state(),
            Protocol::ZeroNet => self.zeronet_adapter.state(),
            Protocol::Freenet => self.freenet_adapter.state(),
            Protocol::RetroShare => self.retroshare_adapter.state(),
            Protocol::GnuNet => self.gnunet_adapter.state(),
            Protocol::Tribler => self.tribler_adapter.state(),
        }
    }

    /// Whether the adapter of `p` is ready to start.
    pub open spec fn ready(&self, p: Protocol) -> bool {
        match p {
            Protocol::Tor => self.tor_adapter.ready(),
            Protocol::I2p => self.i2p_adapter.ready(),
            Protocol::Nym => self.nym_adapter.ready(),
            Protocol::Lokinet => self.lokinet_adapter.ready(),
            Protocol::Ipfs => self.ipfs_adapter.ready(),
            Protocol::ZeroNet => self.zeronet_adapter.ready(),
            Protocol::Freenet => self.freenet_adapter.ready(),
            Protocol::RetroShare => self.retroshare_adapter.ready(),
            Protocol::GnuNet => self.gnunet_adapter.ready(),
            Protocol::Tribler => self.tribler_adapter.ready(),
        }
    }

    /// What the adapter of `p` asks for when it starts.
    pub open spec fn start_request(&self, p: Protocol) -> StartActionView {
        match p {
            Protocol::Tor => self.tor_adapter.start_request(),
            Protocol::I2p => self.i2p_adapter.start_request(),
            Protocol::Nym => self.nym_adapter.start_request(),
            Protocol::Lokinet => self.lokinet_adapter.start_request(),
            Protocol::Ipfs => self.ipfs_adapter.start_request(),
            Protocol::ZeroNet => self.zeronet_adapter.start_request(),
            Protocol::Freenet => self.freenet_adapter.start_request(),
            Protocol::RetroShare => self.retroshare_adapter.start_request(),
            Protocol::GnuNet => self.gnunet_adapter.start_request(),
            Protocol::Tribler => self.tribler_adapter.start_request(),
        }
    }

    /// What an outcome means for the adapter of `p`.
    pub open spec fn judge(&self, p: Protocol, outcome: StartOutcomeView) -> Verdict {
        match p {
            Protocol::Tor => self.tor_adapter.judge(outcome),
            Protocol::I2p => self.i2p_adapter.judge(outcome),
            Protocol::Nym => self.nym_adapter.judge(outcome),
            Protocol::Lokinet => self.lokinet_adapter.judge(outcome),
            Protocol::Ipfs => self.ipfs_adapter.judge(outcome),
            Protocol::ZeroNet => self.zeronet_adapter.judge(outcome),
            Protocol::Freenet => self.freenet_adapter.judge(outcome),
            Protocol::RetroShare => self.retroshare_adapter.judge(outcome),
            Protocol::GnuNet => self.gnunet_adapter.judge(outcome),
            Protocol::Tribler => self.tribler_adapter.judge(outcome),
        }
    }

    /// How the adapter of `p` lets go of what it holds.
    pub open spec fn stop_request(&self, p: Protocol) -> StopActionView {
        match p {
            Protocol::Tor => self.tor_adapter.stop_request(),
            Protocol::I2p => self.i2p_adapter.stop_request(),
            Protocol::Nym => self.nym_adapter.stop_request(),
            Protocol::Lokinet => self.lokinet_adapter.stop_request(),
            Protocol::Ipfs => self.ipfs_adapter.stop_request(),
            Protocol::ZeroNet => self.zeronet_adapter.stop_request(),
            Protocol::Freenet => self.freenet_adapter.stop_request(),
            Protocol::RetroShare => self.retroshare_adapter.stop_request(),
            Protocol::GnuNet => self.gnunet_adapter.stop_request(),
            Protocol::Tribler => self.tribler_adapter.stop_request(),
        }
    }

    /// The proxy address of the adapter of `p`.
    pub open spec fn proxy_addr(&self, p: Protocol) -> Seq<char> {
        match p {
            Protocol::Tor => self.tor_adapter.proxy_addr(),
            Protocol::I2p => self.i2p_adapter.proxy_addr(),
            Protocol::Nym => self.nym_adapter.proxy_addr(),
            Protocol::Lokinet => self.lokinet_adapter.proxy_addr(),
            Protocol::Ipfs => self.ipfs_adapter.proxy_addr(),
            Protocol::ZeroNet => self.zeronet_adapter.proxy_addr(),
            Protocol::Freenet => self.freenet_adapter.proxy_addr(),
            Protocol::RetroShare => self.retroshare_adapter.proxy_addr(),
            Protocol::GnuNet => self.gnunet_adapter.proxy_addr(),
            Protocol::Tribler => self.tribler_adapter.proxy_addr(),
        }
    }

    /// This manager with the adapter of `p` in `state` and nothing else
    /// changed.
    pub open spec fn with_state(self, p: Protocol, state: AdapterState) -> ProcessManager {
        match p {
            Protocol::Tor => ProcessManager { tor_adapter: self.tor_adapter.in_state(state), ..self },
            Protocol::I2p => ProcessManager { i2p_adapter: self.i2p_adapter.in_state(state), ..self },
            Protocol::Nym => ProcessManager { nym_adapter: self.nym_adapter.in_state(state), ..self },
            Protocol::Lokinet => ProcessManager { lokinet_adapter: self.lokinet_adapter.in_state(state), ..self },
            Protocol::Ipfs => ProcessManager { ipfs_adapter: self.ipfs_adapter.in_state(state), ..self },
            Protocol::ZeroNet => ProcessManager { zeronet_adapter: self.zeronet_adapter.in_state(state), ..self },
            Protocol::Freenet => ProcessManager { freenet_adapter: self.freenet_adapter.in_state(state), ..self },
            Protocol::RetroShare => ProcessManager { retroshare_adapter: self.retroshare_adapter.in_state(state), ..self },
            Protocol::GnuNet => ProcessManager { gnunet_adapter: self.gnunet_adapter.in_state(state), ..self },
            Protocol::Tribler => ProcessManager { tribler_adapter: self.tribler_adapter.in_state(state), ..self },
        }
    }

    /// This manager with every adapter stopped and the health map `health`.
    pub open spec fn all_stopped(self, health: HealthState) -> ProcessManager {
        ProcessManager {
            chain_mode: self.chain_mode,
            tor_adapter: self.tor_adapter.in_state(AdapterState::Stopped),
            i2p_adapter: self.i2p_adapter.in_state(AdapterState::Stopped),
            nym_adapter: self.nym_adapter.in_state(AdapterState::Stopped),
            lokinet_adapter: self.lokinet_adapter.in_state(AdapterState::Stopped),
            ipfs_adapter: self.ipfs_adapter.in_state(AdapterState::Stopped),
            zeronet_adapter: self.zeronet_adapter.in_state(AdapterState::Stopped),
            freenet_adapter: self.freenet_adapter.in_state(AdapterState::Stopped),
            retroshare_adapter: self.retroshare_adapter.in_state(AdapterState::Stopped),
            gnunet_adapter: self.gnunet_adapter.in_state(AdapterState::Stopped),
            tribler_adapter: self.tribler_adapter.in_state(AdapterState::Stopped),
            health_state: health,
            enabled_protocols: self.enabled_protocols,
        }
    }

    /// What `stop_processes` asks for the adapter of `p`.
    pub open spec fn stop_action(&self, p: Protocol) -> StopActionView {
        if holds_handle(self.state_of(p)) {
            self.stop_request(p)
        } else {
            StopActionView::Nothing
        }
    }

    /// A manager for the selected back-ends, each adapter idle and no
    /// back-end healthy. Under Tor over Nym the Tor adapter is given Nym's
    /// endpoint as its upstream proxy, see `carries_chain`.
    pub fn new(
        chain_mode: ChainMode,
        enabled_protocols: ProtocolSet,
        tor: TorSettings,
        i2p: I2pSettings,
        nym: NymSettings,
        lokinet: LokinetSettings,
        ipfs: IpfsSettings,
        zeronet: ZeroNetSettings,
        freenet: FreenetSettings,
        retroshare: RetroShareSettings,
        gnunet: GnunetSettings,
        tribler: TriblerSettings,
    ) -> (r: Self)
        ensures
            r.chain_mode == chain_mode,
            r.enabled_protocols == enabled_protocols,
            carries_chain(chain_mode, tor, nym, r.tor_adapter.settings),
            r.i2p_adapter.settings == i2p,
            r.nym_adapter.settings == nym,
            r.lokinet_adapter.settings == lokinet,
            r.ipfs_adapter.settings == ipfs,
            r.zeronet_adapter.settings == zeronet,
            r.freenet_adapter.settings == freenet,
            r.retroshare_adapter.settings == retroshare,
            r.gnunet_adapter.settings == gnunet,
            r.tribler_adapter.settings == tribler,
            forall|p: Protocol| r.state_of(p) == AdapterState::Idle,
            r.health_state@ == Map::<Protocol, bool>::total(|p: Protocol| false),
    {
        let ghost given = tor;
        let tor = if chain_mode == ChainMode::TorOverNym && tor.upstream_proxy.is_none() {
            TorSettings {
                upstream_proxy: Some(with_decimal("127.0.0.1:", nym.socks_port)),
                ..tor
            }
        } else {
            tor
        };
        assert(carries_chain(chain_mode, given, nym, tor));
        let r = Self {
            chain_mode,
            tor_adapter: TorAdapter::new(tor),
            i2p_adapter: I2pAdapter::new(i2p),
            nym_adapter: NymAdapter::new(nym),
            lokinet_adapter: LokinetAdapter::new(lokinet),
            ipfs_adapter: IpfsAdapter::new(ipfs),
            zeronet_adapter: ZeroNetAdapter::new(zeronet),
            freenet_adapter: FreenetAdapter::new(freenet),
            retroshare_adapter: RetroShareAdapter::new(retroshare),
            gnunet_adapter: GnunetAdapter::new(gnunet),
            tribler_adapter: TriblerAdapter::new(tribler),
            health_state: new_health_state(),
            enabled_protocols,
        };
        assert forall|p: Protocol| r.state_of(p) == AdapterState::Idle by {
            match p {
                Protocol::Tor => {},
                Protocol::I2p => {},
                Protocol::Nym => {},
                Protocol::Lokinet => {},
                Protocol::Ipfs => {},
                Protocol::ZeroNet => {},
                Protocol::Freenet => {},
                Protocol::RetroShare => {},
                Protocol::GnuNet => {},
                Protocol::Tribler => {},
            }
        }
        r
    }

    /// The steps of a start, in order. A chain mode decides which of Tor
    /// and Nym starts first; the other back-ends follow in their fixed
    /// order; then one probe task is launched for each enabled back-end.
    pub fn start_processes(&self) -> (steps: Vec<StartStep>)
        ensures
            steps@ == start_sequence(self.chain_mode, self.enabled_protocols@),
    {
        let mut steps = chain_part(self.chain_mode, &self.enabled_protocols);
        let mut others = other_part(&self.enabled_protocols);
        let mut monitors = monitor_part(&self.enabled_protocols);
        steps.append(&mut others);
        steps.append(&mut monitors);
        steps
    }

    /// Begins the start of the adapter of `p` and says what it asks for.
    pub fn start_adapter(&mut self, p: Protocol) -> (a: StartAction)
        ensures
            *final(self) == if will_start(old(self).state_of(p), old(self).ready(p)) {
                old(self).with_state(p, AdapterState::Starting)
            } else {
                *old(self)
            },
            a@ == if will_start(old(self).state_of(p), old(self).ready(p)) {
                old(self).start_request(p)
            } else {
                StartActionView::Nothing
            },
    {
        match p {
            Protocol::Tor => self.tor_adapter.start(),
            Protocol::I2p => self.i2p_adapter.start(),
            Protocol::Nym => self.nym_adapter.start(),
            Protocol::Lokinet => self.lokinet_adapter.start(),
            Protocol::Ipfs => self.ipfs_adapter.start(),
            Protocol::ZeroNet => self.zeronet_adapter.start(),
            Protocol::Freenet => self.freenet_adapter.start(),
            Protocol::RetroShare => self.retroshare_adapter.start(),
            Protocol::GnuNet => self.gnunet_adapter.start(),
            Protocol::Tribler => self.tribler_adapter.start(),
        }
    }

    /// Hands the adapter of `p` the outcome of what its start asked for.
    pub fn finish_start(&mut self, p: Protocol, outcome: StartOutcome) -> (r: Result<
        Started,
        StartError,
    >)
        ensures
            *final(self) == old(self).with_state(
                p,
                settled(old(self).state_of(p), old(self).judge(p, outcome@)),
            ),
            r == start_result(old(self).state_of(p), old(self).judge(p, outcome@)),
    {
        match p {
            Protocol::Tor => self.tor_adapter.finish_start(outcome),
            Protocol::I2p => self.i2p_adapter.finish_start(outcome),
            Protocol::Nym => self.nym_adapter.finish_start(outcome),
            Protocol::Lokinet => self.lokinet_adapter.finish_start(outcome),
            Protocol::Ipfs => self.ipfs_adapter.finish_start(outcome),
            Protocol::ZeroNet => self.zeronet_adapter.finish_start(outcome),
            Protocol::Freenet => self.freenet_adapter.finish_start(outcome),
            Protocol::RetroShare => self.retroshare_adapter.finish_start(outcome),
            Protocol::GnuNet => self.gnunet_adapter.finish_start(outcome),
            Protocol::Tribler => self.tribler_adapter.finish_start(outcome),
        }
    }

    /// Records that the process or session of `p` was lost.
    pub fn mark_lost(&mut self, p: Protocol)
        ensures
            *final(self) == old(self).with_state(
                p,
                if old(self).state_of(p) == AdapterState::Running {
                    AdapterState::Degraded
                } else {
                    old(self).state_of(p)
                },
            ),
    {
        match p {
            Protocol::Tor => self.tor_adapter.mark_lost(),
            Protocol::I2p => self.i2p_adapter.mark_lost(),
            Protocol::Nym => self.nym_adapter.mark_lost(),
            Protocol::Lokinet => self.lokinet_adapter.mark_lost(),
            Protocol::Ipfs => self.ipfs_adapter.mark_lost(),
            Protocol::ZeroNet => self.zeronet_adapter.mark_lost(),
            Protocol::Freenet => self.freenet_adapter.mark_lost(),
            Protocol::RetroShare => self.retroshare_adapter.mark_lost(),
            Protocol::GnuNet => self.gnunet_adapter.mark_lost(),
            Protocol::Tribler => self.tribler_adapter.mark_lost(),
        }
    }

    /// One probe of `p`: asks its adapter whether it is healthy and writes
    /// the answer into the health map.
    pub fn probe(&mut self, p: Protocol) -> (change: HealthChange)
        ensures
            final(self).health_state@ == old(self).health_state@.insert(
                p,
                old(self).state_of(p) == AdapterState::Running,
            ),
            change == change_between(
                reported(old(self).health_state@, p),
                old(self).state_of(p) == AdapterState::Running,
            ),
            forall|q: Protocol| final(self).state_of(q) == old(self).state_of(q),
            final(self).chain_mode == old(self).chain_mode,
            final(self).enabled_protocols == old(self).enabled_protocols,
    {
        match p {
            Protocol::Tor => run_health_monitor(p, &self.tor_adapter, &mut self.health_state),
            Protocol::I2p => run_health_monitor(p, &self.i2p_adapter, &mut self.health_state),
            Protocol::Nym => run_health_monitor(p, &self.nym_adapter, &mut self.health_state),
            Protocol::Lokinet => run_health_monitor(p, &self.lokinet_adapter, &mut self.health_state),
            Protocol::Ipfs => run_health_monitor(p, &self.ipfs_adapter, &mut self.health_state),
            Protocol::ZeroNet => run_health_monitor(p, &self.zeronet_adapter, &mut self.health_state),
            Protocol::Freenet => run_health_monitor(p, &self.freenet_adapter, &mut self.health_state),
            Protocol::RetroShare => run_health_monitor(p, &self.retroshare_adapter, &mut self.health_state),
            Protocol::GnuNet => run_health_monitor(p, &self.gnunet_adapter, &mut self.health_state),
            Protocol::Tribler => run_health_monitor(p, &self.tribler_adapter, &mut self.health_state),
        }
    }

    /// The proxy address of the adapter of `p`.
    pub fn get_proxy_addr(&self, p: Protocol) -> (r: String)
        ensures
            r@ == self.proxy_addr(p),
    {
        match p {
            Protocol::Tor => self.tor_adapter.get_proxy_addr(),
            Protocol::I2p => self.i2p_adapter.get_proxy_addr(),
            Protocol::Nym => self.nym_adapter.get_proxy_addr(),
            Protocol::Lokinet => self.lokinet_adapter.get_proxy_addr(),
            Protocol::Ipfs => self.ipfs_adapter.get_proxy_addr(),
            Protocol::ZeroNet => self.zeronet_adapter.get_proxy_addr(),
            Protocol::Freenet => self.freenet_adapter.get_proxy_addr(),
            Protocol::RetroShare => self.retroshare_adapter.get_proxy_addr(),
            Protocol::GnuNet => self.gnunet_adapter.get_proxy_addr(),
            Protocol::Tribler => self.tribler_adapter.get_proxy_addr(),
        }
    }

    /// Stops every adapter and empties the health map. The steps name, for
    /// each back-end in report order, how to let go of what its adapter
    /// held; the probe tasks are to be aborted with them.
    #[verifier::rlimit(80)]
    pub fn stop_processes(&mut self) -> (steps: Vec<StopStep>)
        ensures
            *final(self) == old(self).all_stopped(final(self).health_state),
            final(self).health_state@ == Map::<Protocol, bool>::empty(),
            steps@.len() == 10,
            forall|i: int|
                0 <= i < 10 ==> (#[trigger] steps@[i]).protocol == all_protocols()[i]
                    && steps@[i].action@ == old(self).stop_action(all_protocols()[i]),
    {
        let mut steps: Vec<StopStep> = Vec::new();
        let action = self.tor_adapter.stop();
        steps.push(StopStep { protocol: Protocol::Tor, action });
        let action = self.i2p_adapter.stop();
        steps.push(StopStep { protocol: Protocol::I2p, action });
        let action = self.nym_adapter.stop();
        steps.push(StopStep { protocol: Protocol::Nym, action });
        let action = self.lokinet_adapter.stop();
        steps.push(StopStep { protocol: Protocol::Lokinet, action });
        let action = self.ipfs_adapter.stop();
        steps.push(StopStep { protocol: Protocol::Ipfs, action });
        let action = self.zeronet_adapter.stop();
        steps.push(StopStep { protocol: Protocol::ZeroNet, action });
        let action = self.freenet_adapter.stop();
        steps.push(StopStep { protocol: Protocol::Freenet, action });
        let action = self.gnunet_adapter.stop();
        steps.push(StopStep { protocol: Protocol::GnuNet, action });
        let action = self.retroshare_adapter.stop();
        steps.push(StopStep { protocol: Protocol::RetroShare, action });
        let action = self.tribler_adapter.stop();
        steps.push(StopStep { protocol: Protocol::Tribler, action });
        self.health_state.clear();
        steps
    }
}

/// Tor over Nym: where both are enabled, Nym starts first, the chain delay
/// follows, and only then Tor starts.
pub proof fn tor_over_nym_starts_nym_first(enabled: Set<Protocol>)
    requires
        enabled.contains(Protocol::Nym),
        enabled.contains(Protocol::Tor),
    ensures
        start_sequence(ChainMode::TorOverNym, enabled).len() >= 3,
        start_sequence(ChainMode::TorOverNym, enabled)[0] == StartStep::Start(Protocol::Nym),
        start_sequence(ChainMode::TorOverNym, enabled)[1] == StartStep::Delay(CHAIN_DELAY_SECS),
        start_sequence(ChainMode::TorOverNym, enabled)[2] == StartStep::Start(Protocol::Tor),
{
}

/// Nym over Tor: where both are enabled, Tor starts first, the chain delay
/// follows, and only then Nym starts.
pub proof fn nym_over_tor_starts_tor_first(enabled: Set<Protocol>)
    requires
        enabled.contains(Protocol::Nym),
        enabled.contains(Protocol::Tor),
    ensures
        start_sequence(ChainMode::NymOverTor, enabled).len() >= 3,
        start_sequence(ChainMode::NymOverTor, enabled)[0] == StartStep::Start(Protocol::Tor),
        start_sequence(ChainMode::NymOverTor, enabled)[1] == StartStep::Delay(CHAIN_DELAY_SECS),
        start_sequence(ChainMode::NymOverTor, enabled)[2] == StartStep::Start(Protocol::Nym),
{
}

proof fn concat_contains<T>(a: Seq<T>, b: Seq<T>, x: T)
    ensures
        (a + b).contains(x) <==> a.contains(x) || b.contains(x),
{
    if a.contains(x) {
        let i = choose|i: int| 0 <= i < a.len() && a[i] == x;
        assert((a + b)[i] == x);
    }
    if b.contains(x) {
        let i = choose|i: int| 0 <= i < b.len() && b[i] == x;
        assert((a + b)[a.len() + i] == x);
    }
    if (a + b).contains(x) {
        let i = choose|i: int| 0 <= i < (a + b).len() && (a + b)[i] == x;
        if i < a.len() {
            assert(a[i] == x);
        } else {
            assert(b[i - a.len()] == x);
        }
    }
}

proof fn start_if_contains(enabled: Set<Protocol>, q: Protocol, x: StartStep)
    ensures
        start_if(enabled, q).contains(x) <==> enabled.contains(q) && x == StartStep::Start(q),
{
    if enabled.contains(q) {
        assert(start_if(enabled, q)[0] == StartStep::Start(q));
    }
}

proof fn start_and_wait_if_contains(enabled: Set<Protocol>, q: Protocol, x: StartStep)
    ensures
        start_and_wait_if(enabled, q).contains(x) <==> enabled.contains(q) && (x
            == StartStep::Start(q) || x == StartStep::Delay(CHAIN_DELAY_SECS)),
{
    if enabled.contains(q) {
        assert(start_and_wait_if(enabled, q)[0] == StartStep::Start(q));
        assert(start_and_wait_if(enabled, q)[1] == StartStep::Delay(CHAIN_DELAY_SECS));
    }
}

proof fn monitor_if_contains(enabled: Set<Protocol>, q: Protocol, x: StartStep)
    ensures
        monitor_if(enabled, q).contains(x) <==> enabled.contains(q) && x == StartStep::Monitor(
            q,
            PROBE_INTERVAL_SECS,
        ),
{
    if enabled.contains(q) {
        assert(monitor_if(enabled, q)[0] == StartStep::Monitor(q, PROBE_INTERVAL_SECS));
    }
}

/// Whether `p` is one of the two back-ends that a chain is made of.
pub open spec fn in_chain(p: Protocol) -> bool {
    p == Protocol::Tor || p == Protocol::Nym
}

/// What the chain part of a start holds: the start of Tor and of Nym where
/// each is enabled, and in a chain, where the carrier is enabled, the
/// delay.
pub proof fn chain_part_holds(mode: ChainMode, enabled: Set<Protocol>, x: StartStep)
    ensures
        chain_steps(mode, enabled).contains(x) <==> (exists|q: Protocol|
            in_chain(q) && enabled.contains(q) && x == StartStep::Start(q)) || (x
            == StartStep::Delay(CHAIN_DELAY_SECS) && ((mode == ChainMode::TorOverNym
            && enabled.contains(Protocol::Nym)) || (mode == ChainMode::NymOverTor
            && enabled.contains(Protocol::Tor)))),
{
    start_if_contains(enabled, Protocol::Tor, x);
    start_if_contains(enabled, Protocol::Nym, x);
    start_and_wait_if_contains(enabled, Protocol::Tor, x);
    start_and_wait_if_contains(enabled, Protocol::Nym, x);
    concat_contains(
        start_and_wait_if(enabled, Protocol::Nym),
        start_if(enabled, Protocol::Tor),
        x,
    );
    concat_contains(
        start_and_wait_if(enabled, Protocol::Tor),
        start_if(enabled, Protocol::Nym),
        x,
    );
    concat_contains(start_if(enabled, Protocol::Tor), start_if(enabled, Protocol::Nym), x);
    if enabled.contains(Protocol::Tor) && x == StartStep::Start(Protocol::Tor) {
        assert(in_chain(Protocol::Tor));
    }
    if enabled.contains(Protocol::Nym) && x == StartStep::Start(Protocol::Nym) {
        assert(in_chain(Protocol::Nym));
    }
}

/// What the second part of a start holds: the start of each enabled
/// back-end that is not part of a chain.
pub proof fn other_part_holds(enabled: Set<Protocol>, x: StartStep)
    ensures
        other_steps(enabled).contains(x) <==> exists|q: Protocol|
            !in_chain(q) && enabled.contains(q) && x == StartStep::Start(q),
{
    start_if_contains(enabled, Protocol::I2p, x);
    start_if_contains(enabled, Protocol::Lokinet, x);
    concat_contains(start_if(enabled, Protocol::I2p), start_if(enabled, Protocol::Lokinet), x);
    start_if_contains(enabled, Protocol::Ipfs, x);
    concat_contains(start_if(enabled, Protocol::I2p) + start_if(enabled, Protocol::Lokinet), start_if(enabled, Protocol::Ipfs), x);
    start_if_contains(enabled, Protocol::ZeroNet, x);
    concat_contains(start_if(enabled, Protocol::I2p) + start_if(enabled, Protocol::Lokinet) + start_if(enabled, Protocol::Ipfs), start_if(enabled, Protocol::ZeroNet), x);
    start_if_contains(enabled, Protocol::Freenet, x);
    concat_contains(start_if(enabled, Protocol::I2p) + start_if(enabled, Protocol::Lokinet) + start_if(enabled, Protocol::Ipfs) + start_if(enabled, Protocol::ZeroNet), start_if(enabled, Protocol::Freenet), x);
    start_if_contains(enabled, Protocol::RetroShare, x);
    concat_contains(start_if(enabled, Protocol::I2p) + start_if(enabled, Protocol::Lokinet) + start_if(enabled, Protocol::Ipfs) + start_if(enabled, Protocol::ZeroNet) + start_if(enabled, Protocol::Freenet), start_if(enabled, Protocol::RetroShare), x);
    start_if_contains(enabled, Protocol::GnuNet, x);
    concat_contains(start_if(enabled, Protocol::I2p) + start_if(enabled, Protocol::Lokinet) + start_if(enabled, Protocol::Ipfs) + start_if(enabled, Protocol::ZeroNet) + start_if(enabled, Protocol::Freenet) + start_if(enabled, Protocol::RetroShare), start_if(enabled, Protocol::GnuNet), x);
    start_if_contains(enabled, Protocol::Tribler, x);
    concat_contains(start_if(enabled, Protocol::I2p) + start_if(enabled, Protocol::Lokinet) + start_if(enabled, Protocol::Ipfs) + start_if(enabled, Protocol::ZeroNet) + start_if(enabled, Protocol::Freenet) + start_if(enabled, Protocol::RetroShare) + start_if(enabled, Protocol::GnuNet), start_if(enabled, Protocol::Tribler), x);
    if other_steps(enabled).contains(x) {
        let q = x->Start_0;
        assert(!in_chain(q) && enabled.contains(q) && x == StartStep::Start(q));
    }
}

/// What the last part of a start holds: one probe task for each enabled
/// back-end.
pub proof fn monitor_part_holds(enabled: Set<Protocol>, x: StartStep)
    ensures
        monitor_steps(enabled).contains(x) <==> exists|q: Protocol|
            enabled.contains(q) && x == StartStep::Monitor(q, PROBE_INTERVAL_SECS),
{
    monitor_if_contains(enabled, Protocol::Tor, x);
    monitor_if_contains(enabled, Protocol::I2p, x);
    concat_contains(monitor_if(enabled, Protocol::Tor), monitor_if(enabled, Protocol::I2p), x);
    monitor_if_contains(enabled, Protocol::Nym, x);
    concat_contains(monitor_if(enabled, Protocol::Tor) + monitor_if(enabled, Protocol::I2p), monitor_if(enabled, Protocol::Nym), x);
    monitor_if_contains(enabled, Protocol::Lokinet, x);
    concat_contains(monitor_if(enabled, Protocol::Tor) + monitor_if(enabled, Protocol::I2p) + monitor_if(enabled, Protocol::Nym), monitor_if(enabled, Protocol::Lokinet), x);
    monitor_if_contains(enabled, Protocol::Ipfs, x);
    concat_contains(monitor_if(enabled, Protocol::Tor) + monitor_if(enabled, Protocol::I2p) + monitor_if(enabled, Protocol::Nym) + monitor_if(enabled, Protocol::Lokinet), monitor_if(enabled, Protocol::Ipfs), x);
    monitor_if_contains(enabled, Protocol::ZeroNet, x);
    concat_contains(monitor_if(enabled, Protocol::Tor) + monitor_if(enabled, Protocol::I2p) + monitor_if(enabled, Protocol::Nym) + monitor_if(enabled, Protocol::Lokinet) + monitor_if(enabled, Protocol::Ipfs), monitor_if(enabled, Protocol::ZeroNet), x);
    monitor_if_contains(enabled, Protocol::Freenet, x);
    concat_contains(monitor_if(enabled, Protocol::Tor) + monitor_if(enabled, Protocol::I2p) + monitor_if(enabled, Protocol::Nym) + monitor_if(enabled, Protocol::Lokinet) + monitor_if(enabled, Protocol::Ipfs) + monitor_if(enabled, Protocol::ZeroNet), monitor_if(enabled, Protocol::Freenet), x);
    monitor_if_contains(enabled, Protocol::RetroShare, x);
    concat_contains(monitor_if(enabled, Protocol::Tor) + monitor_if(enabled, Protocol::I2p) + monitor_if(enabled, Protocol::Nym) + monitor_if(enabled, Protocol::Lokinet) + monitor_if(enabled, Protocol::Ipfs) + monitor_if(enabled, Protocol::ZeroNet) + monitor_if(enabled, Protocol::Freenet), monitor_if(enabled, Protocol::RetroShare), x);
    monitor_if_contains(enabled, Protocol::GnuNet, x);
    concat_contains(monitor_if(enabled, Protocol::Tor) + monitor_if(enabled, Protocol::I2p) + monitor_if(enabled, Protocol::Nym) + monitor_if(enabled, Protocol::Lokinet) + monitor_if(enabled, Protocol::Ipfs) + monitor_if(enabled, Protocol::ZeroNet) + monitor_if(enabled, Protocol::Freenet) + monitor_if(enabled, Protocol::RetroShare), monitor_if(enabled, Protocol::GnuNet), x);
    monitor_if_contains(enabled, Protocol::Tribler, x);
    concat_contains(monitor_if(enabled, Protocol::Tor) + monitor_if(enabled, Protocol::I2p) + monitor_if(enabled, Protocol::Nym) + monitor_if(enabled, Protocol::Lokinet) + monitor_if(enabled, Protocol::Ipfs) + monitor_if(enabled, Protocol::ZeroNet) + monitor_if(enabled, Protocol::Freenet) + monitor_if(enabled, Protocol::RetroShare) + monitor_if(enabled, Protocol::GnuNet), monitor_if(enabled, Protocol::Tribler), x);
    if monitor_steps(enabled).contains(x) {
        let q = x->Monitor_0;
        assert(enabled.contains(q) && x == StartStep::Monitor(q, PROBE_INTERVAL_SECS));
    }
}

/// What a start does, as a whole: it starts exactly the enabled back-ends,
/// launches a probe task for exactly the enabled back-ends, and waits only
/// in a chain whose carrier is enabled.
pub proof fn start_sequence_holds(mode: ChainMode, enabled: Set<Protocol>, x: StartStep)
    ensures
        start_sequence(mode, enabled).contains(x) <==> match x {
            StartStep::Start(q) => enabled.contains(q),
            StartStep::Monitor(q, secs) => enabled.contains(q) && secs == PROBE_INTERVAL_SECS,
            StartStep::Delay(secs) => secs == CHAIN_DELAY_SECS && ((mode == ChainMode::TorOverNym
                && enabled.contains(Protocol::Nym)) || (mode == ChainMode::NymOverTor
                && enabled.contains(Protocol::Tor))),
        },
{
    chain_part_holds(mode, enabled, x);
    other_part_holds(enabled, x);
    monitor_part_holds(enabled, x);
    concat_contains(chain_steps(mode, enabled), other_steps(enabled), x);
    concat_contains(
        chain_steps(mode, enabled) + other_steps(enabled),
        monitor_steps(enabled),
        x,
    );
    match x {
        StartStep::Start(q) => {
            if enabled.contains(q) {
                if in_chain(q) {
                    assert(in_chain(q) && enabled.contains(q) && x == StartStep::Start(q));
                } else {
                    assert(!in_chain(q) && enabled.contains(q) && x == StartStep::Start(q));
                }
            }
        },
        StartStep::Monitor(q, secs) => {
            if enabled.contains(q) && secs == PROBE_INTERVAL_SECS {
                assert(enabled.contains(q) && x == StartStep::Monitor(q, PROBE_INTERVAL_SECS));
            }
        },
        StartStep::Delay(secs) => {},
    }
}

} // verus!
