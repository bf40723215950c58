//! RetroShare: a friend-to-friend node reached through its JSON API.

use vstd::prelude::*;
use crate::adapters::{
    http_verdict, judge_http, AdapterState, EnvVar, HttpMethod, HttpProbe, HttpProbeView,
    Lifecycle, ProtocolAdapter, StartAction, StartActionView, StartError, StartOutcome,
    StartOutcomeView, Started, StopAction, StopActionView, Verdict,
};
use crate::config::RetroShareSettings;

verus! {

/// The adapter for a local RetroShare node.
pub struct RetroShareAdapter {
    pub settings: RetroShareSettings,
    pub life: Lifecycle,
}

impl RetroShareAdapter {
    pub fn new(settings: RetroShareSettings) -> (r: Self)
        ensures
            r.settings == settings,
            r.life.state == AdapterState::Idle,
    {
        Self { settings, life: Lifecycle::new() }
    }

    /// The probe: a GET of the API URL, with basic authentication where a
    /// user is configured. Only a status in the success class counts.
    pub open spec fn probe(&self) -> HttpProbeView {
        HttpProbeView {
            method: HttpMethod::Get,
            url: self.settings.api_url@,
            header: None,
            basic_auth: match self.settings.user {
                Some(user) => Some(
                    (
                        user@,
                        match self.settings.password {
                            Some(password) => password@,
                            None => Seq::empty(),
                        },
                    ),
                ),
                None => None,
            },
        }
    }
}

impl ProtocolAdapter for RetroShareAdapter {
    open spec fn state(&self) -> AdapterState {
        self.life.state
    }

    open spec fn in_state(self, state: AdapterState) -> Self {
        RetroShareAdapter { life: Lifecycle { state }, ..self }
    }

    open spec fn ready(&self) -> bool {
        self.settings.enabled
    }

    open spec fn start_request(&self) -> StartActionView {
        StartActionView::Http(self.probe())
    }

    open spec fn judge(&self, outcome: StartOutcomeView) -> Verdict {
        http_verdict(outcome, false)
    }

    open spec fn stop_request(&self) -> StopActionView {
        StopActionView::Disconnect
    }

    open spec fn proxy_addr(&self) -> Seq<char> {
        self.settings.api_url@
    }

    fn start(&mut self) -> (a: StartAction) {
        if !self.life.begin(self.settings.enabled) {
            return StartAction::Nothing;
        }
        let url = self.settings.api_url.clone();
        let basic_auth = match &self.settings.user {
            Some(user) => {
                let password = match &self.settings.password {
                    Some(password) => password.clone(),
                    None => String::new(),
                };
                Some(EnvVar { name: user.clone(), value: password })
            },
            None => None,
        };
        StartAction::Http(
            HttpProbe { method: HttpMethod::Get, url, header: None, basic_auth: basic_auth },
        )
    }

    fn finish_start(&mut self, outcome: StartOutcome) -> (r: Result<Started, StartError>) {
        self.life.settle(judge_http(&outcome, false))
    }

    fn stop(&mut self) -> (a: StopAction) {
        if self.life.halt() {
            StopAction::Disconnect
        } else {
            StopAction::Nothing
        }
    }

    fn mark_lost(&mut self) {
        self.life.lose();
    }

    fn get_proxy_addr(&self) -> (r: String) {
        self.settings.api_url.clone()
    }

    fn is_healthy(&self) -> (r: bool) {
        self.life.healthy()
    }
}

} // verus!
