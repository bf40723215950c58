//! ZeroNet: a local daemon that serves sites over its HTTP proxy.

use vstd::prelude::*;
use vstd::string::StringExecFns;
use crate::adapters::{
    http_verdict, judge_http, AdapterState, HttpMethod, HttpProbe, HttpProbeView, Lifecycle,
    ProtocolAdapter, StartAction, StartActionView, StartError, StartOutcome, StartOutcomeView,
    Started, StopAction, StopActionView, Verdict,
};
use crate::config::ZeroNetSettings;

verus! {

/// The adapter for a local ZeroNet daemon.
pub struct ZeroNetAdapter {
    pub settings: ZeroNetSettings,
    pub life: Lifecycle,
}

impl ZeroNetAdapter {
    pub fn new(settings: ZeroNetSettings) -> (r: Self)
        ensures
            r.settings == settings,
            r.life.state == AdapterState::Idle,
    {
        Self { settings, life: Lifecycle::new() }
    }

    /// The probe: a GET of the daemon's statistics page. Only a status in the
    /// success class counts as an answer.
    pub open spec fn probe(&self) -> HttpProbeView {
        HttpProbeView {
            method: HttpMethod::Get,
            url: self.settings.proxy_url@ + "/ZeroNet-Internal/Stats"@,
            header: None,
            basic_auth: None,
        }
    }
}

impl ProtocolAdapter for ZeroNetAdapter {
    open spec fn state(&self) -> AdapterState {
        self.life.state
    }

    open spec fn in_state(self, state: AdapterState) -> Self {
        ZeroNetAdapter { life: Lifecycle { state }, ..self }
    }

    open spec fn ready(&self) -> bool {
        self.settings.enabled
    }

    open spec fn start_request(&self) -> StartActionView {
        StartActionView::Http(self.probe())
    }

    open spec fn judge(&self, outcome: StartOutcomeView) -> Verdict {
        http_verdict(outcome, false)
    }

    open spec fn stop_request(&self) -> StopActionView {
        StopActionView::Disconnect
    }

    open spec fn proxy_addr(&self) -> Seq<char> {
        self.settings.proxy_url@
    }

    fn start(&mut self) -> (a: StartAction) {
        if !self.life.begin(self.settings.enabled) {
            return StartAction::Nothing;
        }
        let mut url = self.settings.proxy_url.clone();
        url.append("/ZeroNet-Internal/Stats");
        StartAction::Http(
            HttpProbe { method: HttpMethod::Get, url, header: None, basic_auth: None },
        )
    }

    fn finish_start(&mut self, outcome: StartOutcome) -> (r: Result<Started, StartError>) {
        self.life.settle(judge_http(&outcome, false))
    }

    fn stop(&mut self) -> (a: StopAction) {
        if self.life.halt() {
            StopAction::Disconnect
        } else {
            StopAction::Nothing
        }
    }

    fn mark_lost(&mut self) {
        self.life.lose();
    }

    fn get_proxy_addr(&self) -> (r: String) {
        self.settings.proxy_url.clone()
    }

    fn is_healthy(&self) -> (r: bool) {
        self.life.healthy()
    }
}

} // verus!
