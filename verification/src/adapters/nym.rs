//! Nym: the embedded mixnet client, which offers a SOCKS5 proxy once it is connected through a network requester.

use vstd::prelude::*;
use crate::adapters::{
    text, AdapterState, Lifecycle, ProtocolAdapter, StartAction, StartActionView, StartError,
    StartOutcome, StartOutcomeView, Started, StopAction, StopActionView, Verdict,
};
use crate::config::NymSettings;
use crate::text::{decimal, with_decimal};

verus! {

/// The adapter for the embedded Nym client.
pub struct NymAdapter {
    pub settings: NymSettings,
    pub life: Lifecycle,
}

impl NymAdapter {
    pub fn new(settings: NymSettings) -> (r: Self)
        ensures
            r.settings == settings,
            r.life.state == AdapterState::Idle,
    {
        Self { settings, life: Lifecycle::new() }
    }

}

impl ProtocolAdapter for NymAdapter {
    open spec fn state(&self) -> AdapterState {
        self.life.state
    }

    open spec fn in_state(self, state: AdapterState) -> Self {
        NymAdapter { life: Lifecycle { state }, ..self }
    }

    open spec fn ready(&self) -> bool {
        self.settings.enabled && self.settings.upstream_provider is Some
    }

    open spec fn start_request(&self) -> StartActionView {
        StartActionView::Mixnet {
            provider: match self.settings.upstream_provider {
                Some(provider) => provider@,
                None => Seq::empty(),
            },
            data_dir: "data/nym"@,
        }
    }

    open spec fn judge(&self, outcome: StartOutcomeView) -> Verdict {
        match outcome {
            StartOutcomeView::Up => Verdict::Up,
            _ => Verdict::Error,
        }
    }

    open spec fn stop_request(&self) -> StopActionView {
        StopActionView::Disconnect
    }

    open spec fn proxy_addr(&self) -> Seq<char> {
        "127.0.0.1:"@ + decimal(self.settings.socks_port as nat)
    }

    fn start(&mut self) -> (a: StartAction) {
        if !self.life.begin(self.settings.enabled && self.settings.upstream_provider.is_some()) {
            return StartAction::Nothing;
        }
        let provider = match &self.settings.upstream_provider {
            Some(provider) => provider.clone(),
            None => String::new(),
        };
        StartAction::Mixnet { provider, data_dir: text("data/nym") }
    }

    fn finish_start(&mut self, outcome: StartOutcome) -> (r: Result<Started, StartError>) {
        let v = match outcome {
            StartOutcome::Up => Verdict::Up,
            _ => Verdict::Error,
        };
        self.life.settle(v)
    }

    fn stop(&mut self) -> (a: StopAction) {
        if self.life.halt() {
            StopAction::Disconnect
        } else {
            StopAction::Nothing
        }
    }

    fn mark_lost(&mut self) {
        self.life.lose();
    }

    fn get_proxy_addr(&self) -> (r: String) {
        with_decimal("127.0.0.1:", self.settings.socks_port)
    }

    fn is_healthy(&self) -> (r: bool) {
        self.life.healthy()
    }
}

} // verus!
