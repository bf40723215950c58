//! Tribler: an anonymous torrent client reached through its REST API.

use vstd::prelude::*;
use vstd::string::StringExecFns;
use crate::adapters::{
    http_verdict, judge_http, text, AdapterState, EnvVar, HttpMethod, HttpProbe, HttpProbeView,
    Lifecycle, ProtocolAdapter, StartAction, StartActionView, StartError, StartOutcome,
    StartOutcomeView, Started, StopAction, StopActionView, Verdict,
};
use crate::config::TriblerSettings;

verus! {

/// The adapter for a local Tribler instance.
pub struct TriblerAdapter {
    pub settings: TriblerSettings,
    pub life: Lifecycle,
}

impl TriblerAdapter {
    pub fn new(settings: TriblerSettings) -> (r: Self)
        ensures
            r.settings == settings,
            r.life.state == AdapterState::Idle,
    {
        Self { settings, life: Lifecycle::new() }
    }

    /// The probe: a GET of the API's variables, with the API key as a header
    /// where one is configured. Any answer counts.
    pub open spec fn probe(&self) -> HttpProbeView {
        HttpProbeView {
            method: HttpMethod::Get,
            url: self.settings.api_url@ + "/variables"@,
            header: match self.settings.api_key {
                Some(key) => Some(("X-Api-Key"@, key@)),
                None => None,
            },
            basic_auth: None,
        }
    }
}

impl ProtocolAdapter for TriblerAdapter {
    open spec fn state(&self) -> AdapterState {
        self.life.state
    }

    open spec fn in_state(self, state: AdapterState) -> Self {
        TriblerAdapter { life: Lifecycle { state }, ..self }
    }

    open spec fn ready(&self) -> bool {
        self.settings.enabled
    }

    open spec fn start_request(&self) -> StartActionView {
        StartActionView::Http(self.probe())
    }

    open spec fn judge(&self, outcome: StartOutcomeView) -> Verdict {
        http_verdict(outcome, true)
    }

    open spec fn stop_request(&self) -> StopActionView {
        StopActionView::Disconnect
    }

    open spec fn proxy_addr(&self) -> Seq<char> {
        self.settings.api_url@
    }

    fn start(&mut self) -> (a: StartAction) {
        if !self.life.begin(self.settings.enabled) {
            return StartAction::Nothing;
        }
        let mut url = self.settings.api_url.clone();
        url.append("/variables");
        let header = match &self.settings.api_key {
            Some(key) => Some(EnvVar { name: text("X-Api-Key"), value: key.clone() }),
            None => None,
        };
        StartAction::Http(
            HttpProbe { method: HttpMethod::Get, url, header: header, basic_auth: None },
        )
    }

    fn finish_start(&mut self, outcome: StartOutcome) -> (r: Result<Started, StartError>) {
        self.life.settle(judge_http(&outcome, true))
    }

    fn stop(&mut self) -> (a: StopAction) {
        if self.life.halt() {
            StopAction::Disconnect
        } else {
            StopAction::Nothing
        }
    }

    fn mark_lost(&mut self) {
        self.life.lose();
    }

    fn get_proxy_addr(&self) -> (r: String) {
        self.settings.api_url.clone()
    }

    fn is_healthy(&self) -> (r: bool) {
        self.life.healthy()
    }
}

} // verus!
