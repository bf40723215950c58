//! The control surface: the operations through which a command line or a
//! desktop shell drives the core.

use vstd::prelude::*;
use crate::adapters::{holds_handle, text, AdapterState};
use crate::config::Settings;
use crate::health_monitor::{
    all_protocols, reported, tag_of, tagged, Protocol, ProtocolSet,
};
use crate::process_manager::{carries_chain, ProcessManager, StopStep};
use crate::socks5::{parsed_url_port, port_or, Socks5Server};
use crate::text::{decimal, with_decimal};

verus! {

/// The most entries the log buffer holds.
pub const LOG_CAPACITY: usize = 500;

/// One line of the log buffer.
#[derive(Debug, Clone, PartialEq, Eq)]
pub struct LogEntry {
    /// Local time of day, `HH:MM:SS`.
    pub timestamp: String,
    pub level: String,
    pub message: String,
}

/// The state of one back-end as a front-end shows it.
#[derive(Debug, Clone, PartialEq, Eq)]
pub struct ProtocolStatus {
    pub name: String,
    pub running: bool,
    pub port: u16,
}

/// What `get_proxy_config` reports.
#[derive(Debug, Clone, PartialEq, Eq)]
pub struct ProxyConfig {
    pub port: u16,
    /// `127.0.0.1:<port>`.
    pub address: String,
    pub running: bool,
}

/// One line of a status report.
#[derive(Debug, Clone, PartialEq, Eq)]
pub struct StatusEntry {
    pub name: String,
    pub value: bool,
}

/// What `stop_daemon` reports: the message for the caller, and how to let
/// go of what each adapter held. The listener is to be aborted with them.
#[derive(Debug, Clone, PartialEq, Eq)]
pub struct StopReport {
    pub message: String,
    pub steps: Vec<StopStep>,
}

/// The state behind the control surface.
pub struct AppState {
    pub process_manager: Option<ProcessManager>,
    pub running: bool,
    pub proxy_port: u16,
    pub logs: Vec<LogEntry>,
}

impl Default for AppState {
    fn default() -> (r: AppState)
        ensures
            r.process_manager is None,
            !r.running,
            r.proxy_port == 9050,
            r.logs@ == Seq::<LogEntry>::empty(),
    {
        AppState { process_manager: None, running: false, proxy_port: 9050, logs: Vec::new() }
    }
}

/// The last `k` of `s`, or all of `s` where it has no more than `k`.
pub open spec fn newest<T>(s: Seq<T>, k: int) -> Seq<T> {
    if s.len() <= k {
        s
    } else {
        s.subrange(s.len() - k, s.len() as int)
    }
}

/// The buffer after the entries `added` were added one by one to `start`.
pub open spec fn after_additions(start: Seq<LogEntry>, added: Seq<LogEntry>) -> Seq<LogEntry>
    decreases added.len(),
{
    if added.len() == 0 {
        newest(start, LOG_CAPACITY as int)
    } else {
        newest(
            after_additions(start, added.drop_last()).push(added.last()),
            LOG_CAPACITY as int,
        )
    }
}

/// The log buffer never holds more than its capacity, and after any number
/// of additions it holds the newest entries in the order in which they
/// came.
pub proof fn log_keeps_newest(start: Seq<LogEntry>, added: Seq<LogEntry>)
    ensures
        after_additions(start, added) == newest(start + added, LOG_CAPACITY as int),
        after_additions(start, added).len() <= LOG_CAPACITY,
    decreases added.len(),
{
    if added.len() == 0 {
        assert(start + added =~= start);
    } else {
        let front = added.drop_last();
        log_keeps_newest(start, front);
        assert(start + added =~= (start + front).push(added.last()));
        assert(after_additions(start, added) =~= newest(start + added, LOG_CAPACITY as int));
    }
}

/// Adds `entry` to the buffer and drops the oldest entries beyond the
/// capacity.
pub fn push_log_entry(logs: &mut Vec<LogEntry>, entry: LogEntry)
    ensures
        final(logs)@ == newest(old(logs)@.push(entry), LOG_CAPACITY as int),
{
    logs.push(entry);
    let ghost all = logs@;
    while logs.len() > LOG_CAPACITY
        invariant
            all == old(logs)@.push(entry),
            logs@.len() <= all.len(),
            logs@.len() >= LOG_CAPACITY || logs@.len() == all.len(),
            logs@ == all.subrange(all.len() - logs@.len(), all.len() as int),
        decreases logs.len(),
    {
        logs.remove(0);
        assert(logs@ =~= all.subrange(all.len() - logs@.len(), all.len() as int));
    }
    assert(all.subrange(0, all.len() as int) =~= all);
}

/// Whether `c` is a decimal digit.
pub open spec fn is_digit(c: char) -> bool {
    '0' <= c && c <= '9'
}

/// Whether `s` has the form of a time of day: two digits for the hour, a
/// colon, two digits for the minute, a colon, two digits for the second.
pub open spec fn is_time_of_day(s: Seq<char>) -> bool {
    &&& s.len() == 8
    &&& is_digit(s[0])
    &&& is_digit(s[1])
    &&& s[2] == ':'
    &&& is_digit(s[3])
    &&& is_digit(s[4])
    &&& s[5] == ':'
    &&& is_digit(s[6])
    &&& is_digit(s[7])
}

/// Trusted: `chrono::Local::now` formatted with `%H:%M:%S`. Which time
/// comes back differs from call to call; the contract claims only the
/// form, which chrono gives to every time: hour, minute and second are
/// each written as two digits, padded with zero, with colons between.
#[verifier::external_body]
fn local_time_of_day() -> (r: String)
    ensures
        is_time_of_day(r@),
{
    chrono::Local::now().format("%H:%M:%S").to_string()
}

/// Adds a line with the current local time to the buffer.
pub fn add_log_entry(logs: &mut Vec<LogEntry>, level: &str, message: &str)
    ensures
        final(logs)@.len() > 0,
        is_time_of_day(final(logs)@.last().timestamp@),
        final(logs)@.last().level@ == level@,
        final(logs)@.last().message@ == message@,
        final(logs)@ == newest(old(logs)@.push(final(logs)@.last()), LOG_CAPACITY as int),
{
    let entry = LogEntry {
        timestamp: local_time_of_day(),
        level: text(level),
        message: text(message),
    };
    push_log_entry(logs, entry);
    assert(logs@.last() == entry);
}

/// `pm` is what a start builds from `settings` for the back-ends in
/// `enabled`: every adapter idle with its part of the settings, and no
/// back-end healthy.
pub open spec fn fresh_manager(pm: ProcessManager, settings: Settings, enabled: Set<Protocol>) -> bool {
    &&& pm.chain_mode == settings.chain_mode
    &&& pm.enabled_protocols@ == enabled
    &&& carries_chain(settings.chain_mode, settings.tor, settings.nym, pm.tor_adapter.settings)
    &&& pm.i2p_adapter.settings == settings.i2p
    &&& pm.nym_adapter.settings == settings.nym
    &&& pm.lokinet_adapter.settings == settings.lokinet
    &&& pm.ipfs_adapter.settings == settings.ipfs
    &&& pm.zeronet_adapter.settings == settings.zeronet
    &&& pm.freenet_adapter.settings == settings.freenet
    &&& pm.retroshare_adapter.settings == settings.retroshare
    &&& pm.gnunet_adapter.settings == settings.gnunet
    &&& pm.tribler_adapter.settings == settings.tribler
    &&& forall|p: Protocol| pm.state_of(p) == AdapterState::Idle
    &&& pm.health_state@ == Map::<Protocol, bool>::total(|p: Protocol| false)
}

/// The routing table that goes with `settings` for a front-end on `port`.
pub open spec fn server_for(port: u16, settings: Settings) -> Socks5Server {
    Socks5Server::on_ports(
        port,
        settings.tor.socks_port,
        settings.i2p.socks_port,
        settings.lokinet.socks_port,
        settings.nym.socks_port,
        settings.ipfs.gateway_port,
        settings.zeronet.port,
        settings.freenet.fproxy_port,
        settings.gnunet.socks_port,
        port_or(parsed_url_port(settings.retroshare.api_url@), 9090),
        port_or(parsed_url_port(settings.tribler.api_url@), 8085),
    )
}

/// Builds the routing table for a front-end on `port` from the settings:
/// each back-end is reached at the port on which it serves clients.
pub fn proxy_server(port: u16, settings: &Settings) -> (s: Socks5Server)
    ensures
        s == server_for(port, *settings),
{
    Socks5Server::new(
        port,
        settings.tor.socks_port,
        settings.i2p.socks_port,
        settings.lokinet.socks_port,
        settings.nym.socks_port,
        settings.ipfs.gateway_port,
        settings.zeronet.port,
        settings.freenet.fproxy_port,
        settings.gnunet.socks_port,
        settings.retroshare.api_url.clone(),
        settings.tribler.api_url.clone(),
    )
}

impl AppState {
    /// What the health map of the manager, if there is one, says of `p`.
    pub open spec fn health_of(&self, p: Protocol) -> bool {
        match self.process_manager {
            Some(pm) => reported(pm.health_state@, p),
            None => false,
        }
    }

    /// The port, the listen address and whether the daemon runs.
    pub fn get_proxy_config(&self) -> (r: ProxyConfig)
        ensures
            r.port == self.proxy_port,
            r.address@ == "127.0.0.1:"@ + decimal(self.proxy_port as nat),
            r.running == self.running,
    {
        ProxyConfig {
            port: self.proxy_port,
            address: with_decimal("127.0.0.1:", self.proxy_port),
            running: self.running,
        }
    }

    /// Sets the listen port. Refused while the daemon runs.
    pub fn set_proxy_port(&mut self, port: u16) -> (r: Result<String, String>)
        ensures
            r is Err <==> old(self).running,
            match r {
                Ok(m) => m@ == "Proxy port set to "@ + decimal(port as nat) && *final(self)
                    == (AppState { proxy_port: port, ..*old(self) }),
                Err(m) => m@ == "Stop daemon first to change port"@ && *final(self) == *old(
                    self,
                ),
            },
    {
        if self.running {
            return Err(text("Stop daemon first to change port"));
        }
        self.proxy_port = port;
        Ok(with_decimal("Proxy port set to ", port))
    }

    /// Starts the daemon for the back-ends that `protocols` names. Refused
    /// while it runs. Tags that name no back-end are passed over. The
    /// caller then carries out `start_processes` of the new manager and
    /// serves the routing table of `proxy_server`.
    pub fn start_daemon(&mut self, protocols: &Vec<String>, settings: Settings) -> (r: Result<
        String,
        String,
    >)
        ensures
            r is Err <==> old(self).running,
            match r {
                Ok(m) => {
                    &&& m@ == "Daemon started on 127.0.0.1:"@ + decimal(
                        old(self).proxy_port as nat,
                    )
                    &&& final(self).running
                    &&& final(self).proxy_port == old(self).proxy_port
                    &&& final(self).logs == old(self).logs
                    &&& final(self).process_manager is Some
                    &&& fresh_manager(
                        final(self).process_manager->Some_0,
                        settings,
                        tagged(protocols@, protocols@.len() as int),
                    )
                },
                Err(m) => m@ == "Daemon already running"@ && *final(self) == *old(self),
            },
    {
        if self.running {
            return Err(text("Daemon already running"));
        }
        let enabled = ProtocolSet::from_tags(protocols);
        let pm = ProcessManager::new(
            settings.chain_mode,
            enabled,
            settings.tor,
            settings.i2p,
            settings.nym,
            settings.lokinet,
            settings.ipfs,
            settings.zeronet,
            settings.freenet,
            settings.retroshare,
            settings.gnunet,
            settings.tribler,
        );
        self.process_manager = Some(pm);
        self.running = true;
        Ok(with_decimal("Daemon started on 127.0.0.1:", self.proxy_port))
    }

    /// Stops the daemon. Refused while it does not run. Every adapter ends
    /// stopped, holding nothing, and the health map ends empty.
    pub fn stop_daemon(&mut self) -> (r: Result<StopReport, String>)
        ensures
            r is Err <==> !old(self).running,
            match r {
                Ok(report) => {
                    &&& report.message@ == "Daemon stopped"@
                    &&& !final(self).running
                    &&& final(self).proxy_port == old(self).proxy_port
                    &&& final(self).logs == old(self).logs
                    &&& match old(self).process_manager {
                        Some(before) => {
                            &&& final(self).process_manager is Some
                            &&& final(self).process_manager->Some_0 == before.all_stopped(
                                final(self).process_manager->Some_0.health_state,
                            )
                            &&& final(self).process_manager->Some_0.health_state@ == Map::<
                                Protocol,
                                bool,
                            >::empty()
                            &&& report.steps@.len() == 10
                            &&& forall|i: int|
                                0 <= i < 10 ==> (#[trigger] report.steps@[i]).protocol
                                    == all_protocols()[i] && report.steps@[i].action@
                                    == before.stop_action(all_protocols()[i])
                        },
                        None => final(self).process_manager is None && report.steps@.len() == 0,
                    }
                },
                Err(m) => m@ == "Daemon not running"@ && *final(self) == *old(self),
            },
    {
        if !self.running {
            return Err(text("Daemon not running"));
        }
        let steps = match &mut self.process_manager {
            Some(pm) => pm.stop_processes(),
            None => Vec::new(),
        };
        self.running = false;
        Ok(StopReport { message: text("Daemon stopped"), steps })
    }

    /// The status report: `daemon` and `proxy`, both whether the daemon
    /// runs, then one line for each back-end in report order with what the
    /// health map says of it. Without a manager every back-end reads
    /// `false`.
    pub fn get_status(&self) -> (r: Vec<StatusEntry>)
        ensures
            r@.len() == 12,
            r@[0].name@ == "daemon"@ && r@[0].value == self.running,
            r@[1].name@ == "proxy"@ && r@[1].value == self.running,
            forall|i: int|
                0 <= i < 10 ==> (#[trigger] r@[i + 2]).name@ == tag_of(all_protocols()[i])
                    && r@[i + 2].value == self.health_of(all_protocols()[i]),
    {
        let mut r: Vec<StatusEntry> = Vec::new();
        r.push(StatusEntry { name: text("daemon"), value: self.running });
        r.push(StatusEntry { name: text("proxy"), value: self.running });
        let all = Protocol::all();
        let mut i: usize = 0;
        while i < 10
            invariant
                i <= 10,
                all@ == all_protocols(),
                r@.len() == i + 2,
                r@[0].name@ == "daemon"@ && r@[0].value == self.running,
                r@[1].name@ == "proxy"@ && r@[1].value == self.running,
                forall|j: int|
                    0 <= j < i ==> (#[trigger] r@[j + 2]).name@ == tag_of(all_protocols()[j])
                        && r@[j + 2].value == self.health_of(all_protocols()[j]),
            decreases 10 - i,
        {
            let p = all[i];
            let value = match &self.process_manager {
                Some(pm) => pm.health_state.is_healthy(p),
                None => false,
            };
            r.push(StatusEntry { name: text(p.tag()), value });
            i = i + 1;
        }
        r
    }

    /// A copy of the log buffer, oldest entry first.
    pub fn get_logs(&self) -> (r: Vec<LogEntry>)
        ensures
            r@ == self.logs@,
    {
        let mut r: Vec<LogEntry> = Vec::new();
        let mut i: usize = 0;
        while i < self.logs.len()
            invariant
                i <= self.logs.len(),
                r@ == self.logs@.subrange(0, i as int),
            decreases self.logs.len() - i,
        {
            let e = &self.logs[i];
            r.push(
                LogEntry {
                    timestamp: e.timestamp.clone(),
                    level: e.level.clone(),
                    message: e.message.clone(),
                },
            );
            i = i + 1;
            assert(r@ =~= self.logs@.subrange(0, i as int));
        }
        assert(self.logs@.subrange(0, self.logs@.len() as int) =~= self.logs@);
        r
    }

    /// Empties the log buffer.
    pub fn clear_logs(&mut self) -> (r: String)
        ensures
            r@ == "Logs cleared"@,
            *final(self) == (AppState { logs: final(self).logs, ..*old(self) }),
            final(self).logs@ == Seq::<LogEntry>::empty(),
    {
        self.logs.clear();
        text("Logs cleared")
    }
}

/// A stop, whatever came between it and the start, leaves every adapter
/// stopped and holding nothing, and leaves no back-end reported healthy.
/// `before` and `after` are the manager before and after `stop_daemon`.
pub proof fn stop_leaves_nothing_behind(before: ProcessManager, after: ProcessManager, p: Protocol)
    requires
        after == before.all_stopped(after.health_state),
        after.health_state@ == Map::<Protocol, bool>::empty(),
    ensures
        after.state_of(p) == AdapterState::Stopped,
        !holds_handle(after.state_of(p)),
        !reported(after.health_state@, p),
{
}

} // verus!
