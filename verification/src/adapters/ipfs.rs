//! IPFS: a Kubo node reached through its RPC API, with an HTTP gateway for content.

use vstd::prelude::*;
use vstd::string::StringExecFns;
use crate::adapters::{
    http_verdict, judge_http, AdapterState, HttpMethod, HttpProbe, HttpProbeView, Lifecycle,
    ProtocolAdapter, StartAction, StartActionView, StartError, StartOutcome, StartOutcomeView,
    Started, StopAction, StopActionView, Verdict,
};
use crate::config::IpfsSettings;
use crate::text::{decimal, with_decimal};

verus! {

/// The adapter for a local IPFS node.
pub struct IpfsAdapter {
    pub settings: IpfsSettings,
    pub life: Lifecycle,
}

impl IpfsAdapter {
    pub fn new(settings: IpfsSettings) -> (r: Self)
        ensures
            r.settings == settings,
            r.life.state == AdapterState::Idle,
    {
        Self { settings, life: Lifecycle::new() }
    }

    /// The probe: a POST to the identity call of the RPC API. Only a status in
    /// the success class counts as an answer.
    pub open spec fn probe(&self) -> HttpProbeView {
        HttpProbeView {
            method: HttpMethod::Post,
            url: self.settings.api_url@ + "/api/v0/id"@,
            header: None,
            basic_auth: None,
        }
    }
}

impl ProtocolAdapter for IpfsAdapter {
    open spec fn state(&self) -> AdapterState {
        self.life.state
    }

    open spec fn in_state(self, state: AdapterState) -> Self {
        IpfsAdapter { life: Lifecycle { state }, ..self }
    }

    open spec fn ready(&self) -> bool {
        self.settings.enabled
    }

    open spec fn start_request(&self) -> StartActionView {
        StartActionView::Http(self.probe())
    }

    open spec fn judge(&self, outcome: StartOutcomeView) -> Verdict {
        http_verdict(outcome, false)
    }

    open spec fn stop_request(&self) -> StopActionView {
        StopActionView::Disconnect
    }

    open spec fn proxy_addr(&self) -> Seq<char> {
        "127.0.0.1:"@ + decimal(self.settings.gateway_port as nat)
    }

    fn start(&mut self) -> (a: StartAction) {
        if !self.life.begin(self.settings.enabled) {
            return StartAction::Nothing;
        }
        let mut url = self.settings.api_url.clone();
        url.append("/api/v0/id");
        StartAction::Http(
            HttpProbe { method: HttpMethod::Post, url, header: None, basic_auth: None },
        )
    }

    fn finish_start(&mut self, outcome: StartOutcome) -> (r: Result<Started, StartError>) {
        self.life.settle(judge_http(&outcome, false))
    }

    fn stop(&mut self) -> (a: StopAction) {
        if self.life.halt() {
            StopAction::Disconnect
        } else {
            StopAction::Nothing
        }
    }

    fn mark_lost(&mut self) {
        self.life.lose();
    }

    fn get_proxy_addr(&self) -> (r: String) {
        with_decimal("127.0.0.1:", self.settings.gateway_port)
    }

    fn is_healthy(&self) -> (r: bool) {
        self.life.healthy()
    }
}

} // verus!
