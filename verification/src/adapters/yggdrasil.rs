//! Yggdrasil: an encrypted IPv6 overlay. It opens a tunnel interface and offers no proxy.

use vstd::prelude::*;
use crate::adapters::{
    judge_spawn, launch_of, plain_launch, push_text, spawn_verdict, text, texts, AdapterState,
    LaunchView, Lifecycle, ProtocolAdapter, StartAction, StartActionView, StartError,
    StartOutcome, StartOutcomeView, Started, StopAction, StopActionView, Verdict,
};

verus! {

/// The adapter for the Yggdrasil router.
pub struct YggdrasilAdapter {
    pub enabled: bool,
    pub binary_path: String,
    pub config_path: Option<String>,
    pub life: Lifecycle,
}

impl YggdrasilAdapter {
    pub fn new(enabled: bool, binary_path: String, config_path: Option<String>) -> (r: Self)
        ensures
            r.enabled == enabled,
            r.binary_path == binary_path,
            r.config_path == config_path,
            r.life.state == AdapterState::Idle,
    {
        Self { enabled, binary_path, config_path, life: Lifecycle::new() }
    }

    /// The arguments the router is launched with.
    pub open spec fn arguments(&self) -> Seq<Seq<char>> {
        seq!["-useconffile"@, self.config_file()]
    }

    /// The configuration file in use: the configured one, else `yggdrasil.conf`.
    pub open spec fn config_file(&self) -> Seq<char> {
        match self.config_path {
            Some(path) => path@,
            None => "yggdrasil.conf"@,
        }
    }

    /// The launch of the process.
    pub open spec fn launch(&self) -> LaunchView {
        plain_launch(self.binary_path@, self.arguments())
    }
}

impl ProtocolAdapter for YggdrasilAdapter {
    open spec fn state(&self) -> AdapterState {
        self.life.state
    }

    open spec fn in_state(self, state: AdapterState) -> Self {
        YggdrasilAdapter { life: Lifecycle { state }, ..self }
    }

    open spec fn ready(&self) -> bool {
        self.enabled
    }

    open spec fn start_request(&self) -> StartActionView {
        StartActionView::Spawn(self.launch())
    }

    open spec fn judge(&self, outcome: StartOutcomeView) -> Verdict {
        spawn_verdict(outcome)
    }

    open spec fn stop_request(&self) -> StopActionView {
        StopActionView::Kill
    }

    open spec fn proxy_addr(&self) -> Seq<char> {
        Seq::empty()
    }

    fn start(&mut self) -> (a: StartAction) {
        if !self.life.begin(self.enabled) {
            return StartAction::Nothing;
        }
        let config = match &self.config_path {
            Some(path) => path.clone(),
            None => text("yggdrasil.conf"),
        };
        let mut args: Vec<String> = Vec::new();
        push_text(&mut args, text("-useconffile"));
        push_text(&mut args, config);
        assert(texts(args@) =~= old(self).arguments());
        let launch = launch_of(self.binary_path.clone(), args);
        StartAction::Spawn(launch)
    }

    fn finish_start(&mut self, outcome: StartOutcome) -> (r: Result<Started, StartError>) {
        self.life.settle(judge_spawn(&outcome))
    }

    fn stop(&mut self) -> (a: StopAction) {
        if self.life.halt() {
            StopAction::Kill
        } else {
            StopAction::Nothing
        }
    }

    fn mark_lost(&mut self) {
        self.life.lose();
    }

    fn get_proxy_addr(&self) -> (r: String) {
        String::new()
    }

    fn is_healthy(&self) -> (r: bool) {
        self.life.healthy()
    }
}

} // verus!
