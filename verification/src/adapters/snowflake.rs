//! Snowflake: a pluggable transport that reaches Tor through volunteer proxies. It offers no proxy of its own.

use vstd::prelude::*;
use crate::adapters::{
    judge_spawn, launch_of, plain_launch, push_text, spawn_verdict, text, texts, AdapterState,
    LaunchView, Lifecycle, ProtocolAdapter, StartAction, StartActionView, StartError,
    StartOutcome, StartOutcomeView, Started, StopAction, StopActionView, Verdict,
};

verus! {

/// The adapter for the Snowflake proxy.
pub struct SnowflakeAdapter {
    pub enabled: bool,
    pub binary_path: String,
    pub broker_url: String,
    pub life: Lifecycle,
}

impl SnowflakeAdapter {
    pub fn new(enabled: bool, binary_path: String, broker_url: String) -> (r: Self)
        ensures
            r.enabled == enabled,
            r.binary_path == binary_path,
            r.broker_url == broker_url,
            r.life.state == AdapterState::Idle,
    {
        Self { enabled, binary_path, broker_url, life: Lifecycle::new() }
    }

    /// The arguments the proxy is launched with.
    pub open spec fn arguments(&self) -> Seq<Seq<char>> {
        seq!["-url"@, self.broker_url@]
    }

    /// The launch of the process.
    pub open spec fn launch(&self) -> LaunchView {
        plain_launch(self.binary_path@, self.arguments())
    }
}

impl ProtocolAdapter for SnowflakeAdapter {
    open spec fn state(&self) -> AdapterState {
        self.life.state
    }

    open spec fn in_state(self, state: AdapterState) -> Self {
        SnowflakeAdapter { life: Lifecycle { state }, ..self }
    }

    open spec fn ready(&self) -> bool {
        self.enabled
    }

    open spec fn start_request(&self) -> StartActionView {
        StartActionView::Spawn(self.launch())
    }

    open spec fn judge(&self, outcome: StartOutcomeView) -> Verdict {
        spawn_verdict(outcome)
    }

    open spec fn stop_request(&self) -> StopActionView {
        StopActionView::Kill
    }

    open spec fn proxy_addr(&self) -> Seq<char> {
        Seq::empty()
    }

    fn start(&mut self) -> (a: StartAction) {
        if !self.life.begin(self.enabled) {
            return StartAction::Nothing;
        }
        let mut args: Vec<String> = Vec::new();
        push_text(&mut args, text("-url"));
        push_text(&mut args, self.broker_url.clone());
        assert(texts(args@) =~= old(self).arguments());
        let launch = launch_of(self.binary_path.clone(), args);
        StartAction::Spawn(launch)
    }

    fn finish_start(&mut self, outcome: StartOutcome) -> (r: Result<Started, StartError>) {
        self.life.settle(judge_spawn(&outcome))
    }

    fn stop(&mut self) -> (a: StopAction) {
        if self.life.halt() {
            StopAction::Kill
        } else {
            StopAction::Nothing
        }
    }

    fn mark_lost(&mut self) {
        self.life.lose();
    }

    fn get_proxy_addr(&self) -> (r: String) {
        String::new()
    }

    fn is_healthy(&self) -> (r: bool) {
        self.life.healthy()
    }
}

} // verus!
