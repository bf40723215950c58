//! Freenet: a node reached over its client protocol (FCP), with FProxy for content.

use vstd::prelude::*;
use vstd::string::StringExecFns;
use vstd::utf8::is_ascii_chars;
use crate::bytes::{contains_bytes, holds_run};
use crate::adapters::{
    text, AdapterState, Lifecycle, ProtocolAdapter, StartAction, StartActionView, StartError,
    StartOutcome, StartOutcomeView, Started, StopAction, StopActionView, Verdict,
};
use crate::config::FreenetSettings;
use crate::text::{ascii_bytes, ascii_to_bytes, decimal, push_decimal};

verus! {

/// The adapter for a local Freenet node.
pub struct FreenetAdapter {
    pub settings: FreenetSettings,
    pub life: Lifecycle,
}

impl FreenetAdapter {
    pub fn new(settings: FreenetSettings) -> (r: Self)
        ensures
            r.settings == settings,
            r.life.state == AdapterState::Idle,
    {
        Self { settings, life: Lifecycle::new() }
    }

    /// The message that opens an FCP conversation.
    pub open spec fn client_hello() -> Seq<char> {
        "ClientHello\nName=Chimera\nExpectedVersion=2.0\nEndMessage\n"@
    }

    /// Whether a reply greets the client: it holds the word `NodeHello`.
    pub open spec fn greets(reply: Seq<u8>) -> bool {
        holds_run(reply, ascii_bytes("NodeHello"@))
    }

    /// Tells whether a reply greets the client.
    pub fn reply_greets(reply: &Vec<u8>) -> (r: bool)
        ensures
            r == Self::greets(reply@),
    {
        proof {
            reveal_strlit("NodeHello");
            assert(is_ascii_chars("NodeHello"@));
        }
        let word = ascii_to_bytes("NodeHello");
        contains_bytes(reply, &word)
    }
}

impl ProtocolAdapter for FreenetAdapter {
    open spec fn state(&self) -> AdapterState {
        self.life.state
    }

    open spec fn in_state(self, state: AdapterState) -> Self {
        FreenetAdapter { life: Lifecycle { state }, ..self }
    }

    open spec fn ready(&self) -> bool {
        self.settings.enabled
    }

    open spec fn start_request(&self) -> StartActionView {
        StartActionView::Hello {
            host: self.settings.host@,
            port: self.settings.fcp_port,
            message: Self::client_hello(),
        }
    }

    open spec fn judge(&self, outcome: StartOutcomeView) -> Verdict {
        match outcome {
            StartOutcomeView::Reply(bytes) => if Self::greets(bytes) {
                Verdict::Up
            } else {
                Verdict::Absent
            },
            _ => Verdict::Absent,
        }
    }

    open spec fn stop_request(&self) -> StopActionView {
        StopActionView::Disconnect
    }

    open spec fn proxy_addr(&self) -> Seq<char> {
        self.settings.host@ + ":"@ + decimal(self.settings.fproxy_port as nat)
    }

    fn start(&mut self) -> (a: StartAction) {
        if !self.life.begin(self.settings.enabled) {
            return StartAction::Nothing;
        }
        StartAction::Hello {
            host: self.settings.host.clone(),
            port: self.settings.fcp_port,
            message: text("ClientHello\nName=Chimera\nExpectedVersion=2.0\nEndMessage\n"),
        }
    }

    fn finish_start(&mut self, outcome: StartOutcome) -> (r: Result<Started, StartError>) {
        let v = match &outcome {
            StartOutcome::Reply(bytes) => if Self::reply_greets(bytes) {
                Verdict::Up
            } else {
                Verdict::Absent
            },
            _ => Verdict::Absent,
        };
        self.life.settle(v)
    }

    fn stop(&mut self) -> (a: StopAction) {
        if self.life.halt() {
            StopAction::Disconnect
        } else {
            StopAction::Nothing
        }
    }

    fn mark_lost(&mut self) {
        self.life.lose();
    }

    fn get_proxy_addr(&self) -> (r: String) {
        let mut r = self.settings.host.clone();
        r.append(":");
        push_decimal(&mut r, self.settings.fproxy_port);
        r
    }

    fn is_healthy(&self) -> (r: bool) {
        self.life.healthy()
    }
}

} // verus!
