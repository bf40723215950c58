//! Session: an onion-routed messenger. It offers no proxy.

use vstd::prelude::*;
use crate::adapters::{
    judge_spawn, launch_of, plain_launch, spawn_verdict, texts, AdapterState, LaunchView,
    Lifecycle, ProtocolAdapter, StartAction, StartActionView, StartError, StartOutcome,
    StartOutcomeView, Started, StopAction, StopActionView, Verdict,
};

verus! {

/// The adapter for the Session client.
pub struct SessionAdapter {
    pub enabled: bool,
    pub binary_path: String,
    pub life: Lifecycle,
}

impl SessionAdapter {
    pub fn new(enabled: bool, binary_path: String) -> (r: Self)
        ensures
            r.enabled == enabled,
            r.binary_path == binary_path,
            r.life.state == AdapterState::Idle,
    {
        Self { enabled, binary_path, life: Lifecycle::new() }
    }

    /// The launch of the process.
    pub open spec fn launch(&self) -> LaunchView {
        plain_launch(self.binary_path@, Seq::empty())
    }
}

impl ProtocolAdapter for SessionAdapter {
    open spec fn state(&self) -> AdapterState {
        self.life.state
    }

    open spec fn in_state(self, state: AdapterState) -> Self {
        SessionAdapter { life: Lifecycle { state }, ..self }
    }

    open spec fn ready(&self) -> bool {
        self.enabled
    }

    open spec fn start_request(&self) -> StartActionView {
        StartActionView::Spawn(self.launch())
    }

    open spec fn judge(&self, outcome: StartOutcomeView) -> Verdict {
        spawn_verdict(outcome)
    }

    open spec fn stop_request(&self) -> StopActionView {
        StopActionView::Kill
    }

    open spec fn proxy_addr(&self) -> Seq<char> {
        Seq::empty()
    }

    fn start(&mut self) -> (a: StartAction) {
        if !self.life.begin(self.enabled) {
            return StartAction::Nothing;
        }
        let args: Vec<String> = Vec::new();
        assert(texts(args@) =~= Seq::empty());
        let launch = launch_of(self.binary_path.clone(), args);
        StartAction::Spawn(launch)
    }

    fn finish_start(&mut self, outcome: StartOutcome) -> (r: Result<Started, StartError>) {
        self.life.settle(judge_spawn(&outcome))
    }

    fn stop(&mut self) -> (a: StopAction) {
        if self.life.halt() {
            StopAction::Kill
        } else {
            StopAction::Nothing
        }
    }

    fn mark_lost(&mut self) {
        self.life.lose();
    }

    fn get_proxy_addr(&self) -> (r: String) {
        String::new()
    }

    fn is_healthy(&self) -> (r: bool) {
        self.life.healthy()
    }
}

} // verus!
