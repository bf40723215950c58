//! GNUnet: a system service whose presence is checked with `gnunet-arm`.

use vstd::prelude::*;
use crate::adapters::{
    launch_of, plain_launch, push_text, text, texts, AdapterState, LaunchView, Lifecycle,
    ProtocolAdapter, StartAction, StartActionView, StartError, StartOutcome, StartOutcomeView,
    Started, StopAction, StopActionView, Verdict,
};
use crate::config::GnunetSettings;
use crate::text::{decimal, with_decimal};

verus! {

/// The adapter for the GNUnet service.
pub struct GnunetAdapter {
    pub settings: GnunetSettings,
    pub life: Lifecycle,
}

impl GnunetAdapter {
    pub fn new(settings: GnunetSettings) -> (r: Self)
        ensures
            r.settings == settings,
            r.life.state == AdapterState::Idle,
    {
        Self { settings, life: Lifecycle::new() }
    }

    /// The check: `gnunet-arm -I` run to completion.
    pub open spec fn check(&self) -> LaunchView {
        plain_launch("gnunet-arm"@, seq!["-I"@])
    }
}

impl ProtocolAdapter for GnunetAdapter {
    open spec fn state(&self) -> AdapterState {
        self.life.state
    }

    open spec fn in_state(self, state: AdapterState) -> Self {
        GnunetAdapter { life: Lifecycle { state }, ..self }
    }

    open spec fn ready(&self) -> bool {
        self.settings.enabled
    }

    open spec fn start_request(&self) -> StartActionView {
        StartActionView::Check(self.check())
    }

    open spec fn judge(&self, outcome: StartOutcomeView) -> Verdict {
        match outcome {
            StartOutcomeView::Exited(ok) => if ok {
                Verdict::Up
            } else {
                Verdict::Absent
            },
            _ => Verdict::Absent,
        }
    }

    open spec fn stop_request(&self) -> StopActionView {
        StopActionView::Disconnect
    }

    open spec fn proxy_addr(&self) -> Seq<char> {
        "127.0.0.1:"@ + decimal(self.settings.socks_port as nat)
    }

    fn start(&mut self) -> (a: StartAction) {
        if !self.life.begin(self.settings.enabled) {
            return StartAction::Nothing;
        }
        let mut args: Vec<String> = Vec::new();
        push_text(&mut args, text("-I"));
        assert(texts(args@) =~= seq!["-I"@]);
        StartAction::Check(launch_of(text("gnunet-arm"), args))
    }

    fn finish_start(&mut self, outcome: StartOutcome) -> (r: Result<Started, StartError>) {
        let v = match outcome {
            StartOutcome::Exited(ok) => if ok {
                Verdict::Up
            } else {
                Verdict::Absent
            },
            _ => Verdict::Absent,
        };
        self.life.settle(v)
    }

    fn stop(&mut self) -> (a: StopAction) {
        if self.life.halt() {
            StopAction::Disconnect
        } else {
            StopAction::Nothing
        }
    }

    fn mark_lost(&mut self) {
        self.life.lose();
    }

    fn get_proxy_addr(&self) -> (r: String) {
        with_decimal("127.0.0.1:", self.settings.socks_port)
    }

    fn is_healthy(&self) -> (r: bool) {
        self.life.healthy()
    }
}

} // verus!
