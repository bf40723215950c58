//! Tor: a launched daemon with a SOCKS port and a control port.

use vstd::prelude::*;
use crate::adapters::{
    judge_spawn, launch_of, plain_launch, push_text, spawn_verdict, text, texts, AdapterState,
    LaunchView, Lifecycle, ProtocolAdapter, StartAction, StartActionView, StartError,
    StartOutcome, StartOutcomeView, Started, StopAction, StopActionView, Verdict,
};
use crate::config::TorSettings;
use crate::text::{decimal, decimal_string, with_decimal};

verus! {

pub struct TorAdapter {
    pub settings: TorSettings,
    pub life: Lifecycle,
}

impl TorAdapter {
    pub fn new(settings: TorSettings) -> (r: Self)
        ensures
            r.settings == settings,
            r.life.state == AdapterState::Idle,
    {
        Self { settings, life: Lifecycle::new() }
    }

    /// The arguments Tor is launched with. Under chaining the configured
    /// upstream proxy is handed over as `--Socks5Proxy`.
    pub open spec fn arguments(&self) -> Seq<Seq<char>> {
        let base = seq![
            "--SocksPort"@,
            decimal(self.settings.socks_port as nat),
            "--ControlPort"@,
            decimal(self.settings.control_port as nat),
            "--DataDirectory"@,
            "data/tor"@,
        ];
        match self.settings.upstream_proxy {
            Some(upstream) => base + seq!["--Socks5Proxy"@, upstream@],
            None => base,
        }
    }

    /// The launch of the Tor daemon.
    pub open spec fn launch(&self) -> LaunchView {
        LaunchView {
            data_dir: Some("data/tor"@),
            skip_if_missing: true,
            capture_output: true,
            ..plain_launch(self.settings.binary_path@, self.arguments())
        }
    }
}

impl ProtocolAdapter for TorAdapter {
    open spec fn state(&self) -> AdapterState {
        self.life.state
    }

    open spec fn in_state(self, state: AdapterState) -> Self {
        TorAdapter { life: Lifecycle { state }, ..self }
    }

    open spec fn ready(&self) -> bool {
        self.settings.enabled
    }

    open spec fn start_request(&self) -> StartActionView {
        StartActionView::Spawn(self.launch())
    }

    open spec fn judge(&self, outcome: StartOutcomeView) -> Verdict {
        spawn_verdict(outcome)
    }

    open spec fn stop_request(&self) -> StopActionView {
        StopActionView::Kill
    }

    open spec fn proxy_addr(&self) -> Seq<char> {
        "127.0.0.1:"@ + decimal(self.settings.socks_port as nat)
    }

    fn start(&mut self) -> (a: StartAction) {
        if !self.life.begin(self.settings.enabled) {
            return StartAction::Nothing;
        }
        let mut args: Vec<String> = Vec::new();
        push_text(&mut args, text("--SocksPort"));
        push_text(&mut args, decimal_string(self.settings.socks_port));
        push_text(&mut args, text("--ControlPort"));
        push_text(&mut args, decimal_string(self.settings.control_port));
        push_text(&mut args, text("--DataDirectory"));
        push_text(&mut args, text("data/tor"));
        match &self.settings.upstream_proxy {
            Some(upstream) => {
                push_text(&mut args, text("--Socks5Proxy"));
                push_text(&mut args, upstream.clone());
            },
            None => {},
        }
        assert(texts(args@) =~= old(self).arguments());
        let mut launch = launch_of(self.settings.binary_path.clone(), args);
        launch.data_dir = Some(text("data/tor"));
        launch.skip_if_missing = true;
        launch.capture_output = true;
        StartAction::Spawn(launch)
    }

    fn finish_start(&mut self, outcome: StartOutcome) -> (r: Result<Started, StartError>) {
        self.life.settle(judge_spawn(&outcome))
    }

    fn stop(&mut self) -> (a: StopAction) {
        if self.life.halt() {
            StopAction::Kill
        } else {
            StopAction::Nothing
        }
    }

    fn mark_lost(&mut self) {
        self.life.lose();
    }

    fn get_proxy_addr(&self) -> (r: String) {
        with_decimal("127.0.0.1:", self.settings.socks_port)
    }

    fn is_healthy(&self) -> (r: bool) {
        self.life.healthy()
    }
}

} // verus!
