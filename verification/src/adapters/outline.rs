//! Outline: a launched Shadowsocks client with a SOCKS port.

use vstd::prelude::*;
use crate::adapters::{
    judge_spawn, launch_of, plain_launch, push_text, spawn_verdict, text, texts, AdapterState,
    LaunchView, Lifecycle, ProtocolAdapter, StartAction, StartActionView, StartError,
    StartOutcome, StartOutcomeView, Started, StopAction, StopActionView, Verdict,
};
use crate::text::{decimal, decimal_string, with_decimal};

verus! {

/// The adapter for the Outline client.
pub struct OutlineAdapter {
    pub enabled: bool,
    pub binary_path: String,
    pub config_path: Option<String>,
    pub socks_port: u16,
    pub life: Lifecycle,
}

impl OutlineAdapter {
    pub fn new(enabled: bool, binary_path: String, config_path: Option<String>, socks_port: u16) -> (r: Self)
        ensures
            r.enabled == enabled,
            r.binary_path == binary_path,
            r.config_path == config_path,
            r.socks_port == socks_port,
            r.life.state == AdapterState::Idle,
    {
        Self { enabled, binary_path, config_path, socks_port, life: Lifecycle::new() }
    }

    /// The arguments the client is launched with.
    pub open spec fn arguments(&self) -> Seq<Seq<char>> {
        match self.config_path {
            Some(path) => seq!["-local_port"@, decimal(self.socks_port as nat)] + seq!["-config"@, path@],
            None => seq!["-local_port"@, decimal(self.socks_port as nat)],
        }
    }

    /// The launch of the process.
    pub open spec fn launch(&self) -> LaunchView {
        plain_launch(self.binary_path@, self.arguments())
    }
}

impl ProtocolAdapter for OutlineAdapter {
    open spec fn state(&self) -> AdapterState {
        self.life.state
    }

    open spec fn in_state(self, state: AdapterState) -> Self {
        OutlineAdapter { life: Lifecycle { state }, ..self }
    }

    open spec fn ready(&self) -> bool {
        self.enabled
    }

    open spec fn start_request(&self) -> StartActionView {
        StartActionView::Spawn(self.launch())
    }

    open spec fn judge(&self, outcome: StartOutcomeView) -> Verdict {
        spawn_verdict(outcome)
    }

    open spec fn stop_request(&self) -> StopActionView {
        StopActionView::Kill
    }

    open spec fn proxy_addr(&self) -> Seq<char> {
        "127.0.0.1:"@ + decimal(self.socks_port as nat)
    }

    fn start(&mut self) -> (a: StartAction) {
        if !self.life.begin(self.enabled) {
            return StartAction::Nothing;
        }
        let mut args: Vec<String> = Vec::new();
        push_text(&mut args, text("-local_port"));
        push_text(&mut args, decimal_string(self.socks_port));
        match &self.config_path {
            Some(path) => {
                push_text(&mut args, text("-config"));
                push_text(&mut args, path.clone());
            },
            None => {},
        }
        assert(texts(args@) =~= old(self).arguments());
        let launch = launch_of(self.binary_path.clone(), args);
        StartAction::Spawn(launch)
    }

    fn finish_start(&mut self, outcome: StartOutcome) -> (r: Result<Started, StartError>) {
        self.life.settle(judge_spawn(&outcome))
    }

    fn stop(&mut self) -> (a: StopAction) {
        if self.life.halt() {
            StopAction::Kill
        } else {
            StopAction::Nothing
        }
    }

    fn mark_lost(&mut self) {
        self.life.lose();
    }

    fn get_proxy_addr(&self) -> (r: String) {
        with_decimal("127.0.0.1:", self.socks_port)
    }

    fn is_healthy(&self) -> (r: bool) {
        self.life.healthy()
    }
}

} // verus!
