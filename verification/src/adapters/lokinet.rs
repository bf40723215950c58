//! Lokinet: a launched daemon that reads one configuration file.

use vstd::prelude::*;
use crate::adapters::{
    judge_spawn, launch_of, plain_launch, push_text, spawn_verdict, text, texts, AdapterState,
    FileCopy, LaunchView, Lifecycle, ProtocolAdapter, StartAction, StartActionView, StartError,
    StartOutcome, StartOutcomeView, Started, StopAction, StopActionView, Verdict,
};
use crate::config::LokinetSettings;
use crate::text::{decimal, with_decimal};

verus! {

/// The adapter for the Lokinet daemon.
pub struct LokinetAdapter {
    pub settings: LokinetSettings,
    pub life: Lifecycle,
}

impl LokinetAdapter {
    pub fn new(settings: LokinetSettings) -> (r: Self)
        ensures
            r.settings == settings,
            r.life.state == AdapterState::Idle,
    {
        Self { settings, life: Lifecycle::new() }
    }

    /// The launch of the Lokinet daemon: the template `chimera.lokinet.ini` is
    /// copied into the data directory, and the copy is the one argument.
    pub open spec fn launch(&self) -> LaunchView {
        LaunchView {
            data_dir: Some("data/lokinet"@),
            template: Some(("chimera.lokinet.ini"@, "data/lokinet/lokinet.ini"@)),
            skip_if_missing: true,
            ..plain_launch(self.settings.binary_path@, seq!["data/lokinet/lokinet.ini"@])
        }
    }
}

impl ProtocolAdapter for LokinetAdapter {
    open spec fn state(&self) -> AdapterState {
        self.life.state
    }

    open spec fn in_state(self, state: AdapterState) -> Self {
        LokinetAdapter { life: Lifecycle { state }, ..self }
    }

    open spec fn ready(&self) -> bool {
        self.settings.enabled
    }

    open spec fn start_request(&self) -> StartActionView {
        StartActionView::Spawn(self.launch())
    }

    open spec fn judge(&self, outcome: StartOutcomeView) -> Verdict {
        spawn_verdict(outcome)
    }

    open spec fn stop_request(&self) -> StopActionView {
        StopActionView::Kill
    }

    open spec fn proxy_addr(&self) -> Seq<char> {
        "127.0.0.1:"@ + decimal(self.settings.socks_port as nat)
    }

    fn start(&mut self) -> (a: StartAction) {
        if !self.life.begin(self.settings.enabled) {
            return StartAction::Nothing;
        }
        let mut args: Vec<String> = Vec::new();
        push_text(&mut args, text("data/lokinet/lokinet.ini"));
        assert(texts(args@) =~= seq!["data/lokinet/lokinet.ini"@]);
        let mut launch = launch_of(self.settings.binary_path.clone(), args);
        launch.data_dir = Some(text("data/lokinet"));
        launch.template = Some(
            FileCopy { from: text("chimera.lokinet.ini"), to: text("data/lokinet/lokinet.ini") },
        );
        launch.skip_if_missing = true;
        StartAction::Spawn(launch)
    }

    fn finish_start(&mut self, outcome: StartOutcome) -> (r: Result<Started, StartError>) {
        self.life.settle(judge_spawn(&outcome))
    }

    fn stop(&mut self) -> (a: StopAction) {
        if self.life.halt() {
            StopAction::Kill
        } else {
            StopAction::Nothing
        }
    }

    fn mark_lost(&mut self) {
        self.life.lose();
    }

    fn get_proxy_addr(&self) -> (r: String) {
        with_decimal("127.0.0.1:", self.settings.socks_port)
    }

    fn is_healthy(&self) -> (r: bool) {
        self.life.healthy()
    }
}

} // verus!
