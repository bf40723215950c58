//! Obfs4: a pluggable transport that obfuscates Tor traffic. It offers no proxy of its own.

use vstd::prelude::*;
use crate::adapters::{
    env_texts, env_var, judge_spawn, launch_of, plain_launch, push_env, spawn_verdict, texts,
    AdapterState, EnvVar, LaunchView, Lifecycle, ProtocolAdapter, StartAction, StartActionView,
    StartError, StartOutcome, StartOutcomeView, Started, StopAction, StopActionView, Verdict,
};

verus! {

/// The adapter for the obfs4 transport.
pub struct Obfs4Adapter {
    pub enabled: bool,
    pub binary_path: String,
    pub listen_port: u16,
    pub life: Lifecycle,
}

impl Obfs4Adapter {
    pub fn new(enabled: bool, binary_path: String, listen_port: u16) -> (r: Self)
        ensures
            r.enabled == enabled,
            r.binary_path == binary_path,
            r.listen_port == listen_port,
            r.life.state == AdapterState::Idle,
    {
        Self { enabled, binary_path, listen_port, life: Lifecycle::new() }
    }

    /// The environment the process is given.
    pub open spec fn environment(&self) -> Seq<(Seq<char>, Seq<char>)> {
        seq![("TOR_PT_MANAGED_TRANSPORT_VER"@, "1"@), ("TOR_PT_STATE_LOCATION"@, "data/obfs4"@), ("TOR_PT_SERVER_TRANSPORTS"@, "obfs4"@)]
    }

    /// The launch of the process.
    pub open spec fn launch(&self) -> LaunchView {
        LaunchView {
            env: self.environment(),
            ..plain_launch(self.binary_path@, Seq::empty())
        }
    }
}

impl ProtocolAdapter for Obfs4Adapter {
    open spec fn state(&self) -> AdapterState {
        self.life.state
    }

    open spec fn in_state(self, state: AdapterState) -> Self {
        Obfs4Adapter { life: Lifecycle { state }, ..self }
    }

    open spec fn ready(&self) -> bool {
        self.enabled
    }

    open spec fn start_request(&self) -> StartActionView {
        StartActionView::Spawn(self.launch())
    }

    open spec fn judge(&self, outcome: StartOutcomeView) -> Verdict {
        spawn_verdict(outcome)
    }

    open spec fn stop_request(&self) -> StopActionView {
        StopActionView::Kill
    }

    open spec fn proxy_addr(&self) -> Seq<char> {
        Seq::empty()
    }

    fn start(&mut self) -> (a: StartAction) {
        if !self.life.begin(self.enabled) {
            return StartAction::Nothing;
        }
        let args: Vec<String> = Vec::new();
        assert(texts(args@) =~= Seq::empty());
        let mut launch = launch_of(self.binary_path.clone(), args);
        let mut env: Vec<EnvVar> = Vec::new();
        push_env(&mut env, env_var("TOR_PT_MANAGED_TRANSPORT_VER", "1"));
        push_env(&mut env, env_var("TOR_PT_STATE_LOCATION", "data/obfs4"));
        push_env(&mut env, env_var("TOR_PT_SERVER_TRANSPORTS", "obfs4"));
        assert(env_texts(env@) =~= old(self).environment());
        launch.env = env;
        StartAction::Spawn(launch)
    }

    fn finish_start(&mut self, outcome: StartOutcome) -> (r: Result<Started, StartError>) {
        self.life.settle(judge_spawn(&outcome))
    }

    fn stop(&mut self) -> (a: StopAction) {
        if self.life.halt() {
            StopAction::Kill
        } else {
            StopAction::Nothing
        }
    }

    fn mark_lost(&mut self) {
        self.life.lose();
    }

    fn get_proxy_addr(&self) -> (r: String) {
        String::new()
    }

    fn is_healthy(&self) -> (r: bool) {
        self.life.healthy()
    }
}

} // verus!
