//! I2P: a launched daemon with a SOCKS proxy and an HTTP proxy.

use vstd::prelude::*;
use crate::adapters::{
    judge_spawn, launch_of, plain_launch, push_text, spawn_verdict, text, texts, AdapterState,
    LaunchView, Lifecycle, ProtocolAdapter, StartAction, StartActionView, StartError,
    StartOutcome, StartOutcomeView, Started, StopAction, StopActionView, Verdict,
};
use crate::config::I2pSettings;
use crate::text::{decimal, with_decimal};

verus! {

/// The adapter for the I2P daemon.
pub struct I2pAdapter {
    pub settings: I2pSettings,
    pub life: Lifecycle,
}

impl I2pAdapter {
    pub fn new(settings: I2pSettings) -> (r: Self)
        ensures
            r.settings == settings,
            r.life.state == AdapterState::Idle,
    {
        Self { settings, life: Lifecycle::new() }
    }

    /// The arguments the I2P daemon is launched with.
    pub open spec fn arguments(&self) -> Seq<Seq<char>> {
        seq![
            "--socksproxy.port="@ + decimal(self.settings.socks_port as nat),
            "--httpproxy.port="@ + decimal(self.settings.http_proxy_port as nat),
            "--datadir=data/i2p"@,
        ]
    }

    /// The launch of the I2P daemon.
    pub open spec fn launch(&self) -> LaunchView {
        LaunchView {
            data_dir: Some("data/i2p"@),
            skip_if_missing: true,
            capture_output: true,
            ..plain_launch(self.settings.binary_path@, self.arguments())
        }
    }
}

impl ProtocolAdapter for I2pAdapter {
    open spec fn state(&self) -> AdapterState {
        self.life.state
    }

    open spec fn in_state(self, state: AdapterState) -> Self {
        I2pAdapter { life: Lifecycle { state }, ..self }
    }

    open spec fn ready(&self) -> bool {
        self.settings.enabled
    }

    open spec fn start_request(&self) -> StartActionView {
        StartActionView::Spawn(self.launch())
    }

    open spec fn judge(&self, outcome: StartOutcomeView) -> Verdict {
        spawn_verdict(outcome)
    }

    open spec fn stop_request(&self) -> StopActionView {
        StopActionView::Kill
    }

    open spec fn proxy_addr(&self) -> Seq<char> {
        "127.0.0.1:"@ + decimal(self.settings.socks_port as nat)
    }

    fn start(&mut self) -> (a: StartAction) {
        if !self.life.begin(self.settings.enabled) {
            return StartAction::Nothing;
        }
        let mut args: Vec<String> = Vec::new();
        push_text(&mut args, with_decimal("--socksproxy.port=", self.settings.socks_port));
        push_text(&mut args, with_decimal("--httpproxy.port=", self.settings.http_proxy_port));
        push_text(&mut args, text("--datadir=data/i2p"));
        assert(texts(args@) =~= old(self).arguments());
        let mut launch = launch_of(self.settings.binary_path.clone(), args);
        launch.data_dir = Some(text("data/i2p"));
        launch.skip_if_missing = true;
        launch.capture_output = true;
        StartAction::Spawn(launch)
    }

    fn finish_start(&mut self, outcome: StartOutcome) -> (r: Result<Started, StartError>) {
        self.life.settle(judge_spawn(&outcome))
    }

    fn stop(&mut self) -> (a: StopAction) {
        if self.life.halt() {
            StopAction::Kill
        } else {
            StopAction::Nothing
        }
    }

    fn mark_lost(&mut self) {
        self.life.lose();
    }

    fn get_proxy_addr(&self) -> (r: String) {
        with_decimal("127.0.0.1:", self.settings.socks_port)
    }

    fn is_healthy(&self) -> (r: bool) {
        self.life.healthy()
    }
}

} // verus!
