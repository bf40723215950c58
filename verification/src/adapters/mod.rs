//! Adapters: one uniform surface over each back-end.
//!
//! An adapter holds the configuration of its back-end and the state of its
//! lifecycle. It does no I/O. `start` says what has to be done to bring the
//! back-end up, `finish_start` takes what came of it, and `stop` says how
//! to let go of whatever is held.


pub mod cjdns;
pub mod freenet;
pub mod gnunet;
pub mod i2p;
pub mod ipfs;
pub mod lokinet;
pub mod meek;
pub mod mysterium;
pub mod nym;
pub mod obfs4;
pub mod outline;
pub mod retroshare;
pub mod session;
pub mod snowflake;
pub mod tor;
pub mod tribler;
pub mod v2ray;
pub mod wireguard;
pub mod yggdrasil;
pub mod zeronet;

use vstd::prelude::*;
use vstd::string::StringExecFns;

verus! {

/// Where an adapter stands in its lifecycle.
#[derive(Debug, Clone, Copy, PartialEq, Eq, Structural)]
pub enum AdapterState {
    /// Not started, or a start found the back-end unusable.
    Idle,
    /// A start was asked for and its outcome is awaited.
    Starting,
    /// The process or session is live.
    Running,
    /// It was running and the process or session was lost.
    Degraded,
    /// Stopped; nothing is held.
    Stopped,
}

/// One environment variable.
#[derive(Debug, Clone, PartialEq, Eq)]
pub struct EnvVar {
    pub name: String,
    pub value: String,
}

/// A file to copy before a launch, if the source exists.
#[derive(Debug, Clone, PartialEq, Eq)]
pub struct FileCopy {
    pub from: String,
    pub to: String,
}

/// A process to launch.
#[derive(Debug, Clone, PartialEq, Eq)]
pub struct Launch {
    pub program: String,
    pub args: Vec<String>,
    pub env: Vec<EnvVar>,
    /// A directory to create first if it is absent.
    pub data_dir: Option<String>,
    /// A template to copy into place first.
    pub template: Option<FileCopy>,
    /// A file to feed to standard input.
    pub stdin_file: Option<String>,
    /// Report `Missing` instead of launching when `program` does not exist.
    pub skip_if_missing: bool,
    /// Capture standard output and standard error line by line into the
    /// log; otherwise both are discarded.
    pub capture_output: bool,
}

/// The views of a list of strings.
pub open spec fn texts(v: Seq<String>) -> Seq<Seq<char>> {
    v.map_values(|s: String| s@)
}

/// The view of an optional string.
pub open spec fn opt_text(o: Option<String>) -> Option<Seq<char>> {
    match o {
        Some(s) => Some(s@),
        None => None,
    }
}

/// The name and value of each variable in a list.
pub open spec fn env_texts(v: Seq<EnvVar>) -> Seq<(Seq<char>, Seq<char>)> {
    v.map_values(|e: EnvVar| (e.name@, e.value@))
}

/// A `Launch` with its texts as sequences.
pub struct LaunchView {
    pub program: Seq<char>,
    pub args: Seq<Seq<char>>,
    pub env: Seq<(Seq<char>, Seq<char>)>,
    pub data_dir: Option<Seq<char>>,
    pub template: Option<(Seq<char>, Seq<char>)>,
    pub stdin_file: Option<Seq<char>>,
    pub skip_if_missing: bool,
    pub capture_output: bool,
}

impl View for Launch {
    type V = LaunchView;

    open spec fn view(&self) -> LaunchView {
        LaunchView {
            program: self.program@,
            args: texts(self.args@),
            env: env_texts(self.env@),
            data_dir: opt_text(self.data_dir),
            template: match self.template {
                Some(c) => Some((c.from@, c.to@)),
                None => None,
            },
            stdin_file: opt_text(self.stdin_file),
            skip_if_missing: self.skip_if_missing,
            capture_output: self.capture_output,
        }
    }
}

/// A launch of `program` with `args` and nothing else: no environment, no
/// directory, no template, output discarded.
pub open spec fn plain_launch(program: Seq<char>, args: Seq<Seq<char>>) -> LaunchView {
    LaunchView {
        program,
        args,
        env: Seq::empty(),
        data_dir: None,
        template: None,
        stdin_file: None,
        skip_if_missing: false,
        capture_output: false,
    }
}

/// The HTTP method of a probe.
#[derive(Debug, Clone, Copy, PartialEq, Eq, Structural)]
pub enum HttpMethod {
    Get,
    Post,
}

/// One HTTP request made to see whether a back-end answers.
#[derive(Debug, Clone, PartialEq, Eq)]
pub struct HttpProbe {
    pub method: HttpMethod,
    pub url: String,
    /// A header to send along: name and value.
    pub header: Option<EnvVar>,
    /// Credentials for basic authentication: user and password.
    pub basic_auth: Option<EnvVar>,
}

/// An `HttpProbe` with its texts as sequences.
pub struct HttpProbeView {
    pub method: HttpMethod,
    pub url: Seq<char>,
    pub header: Option<(Seq<char>, Seq<char>)>,
    pub basic_auth: Option<(Seq<char>, Seq<char>)>,
}

/// The view of an optional pair of texts.
pub open spec fn opt_pair(o: Option<EnvVar>) -> Option<(Seq<char>, Seq<char>)> {
    match o {
        Some(e) => Some((e.name@, e.value@)),
        None => None,
    }
}

impl View for HttpProbe {
    type V = HttpProbeView;

    open spec fn view(&self) -> HttpProbeView {
        HttpProbeView {
            method: self.method,
            url: self.url@,
            header: opt_pair(self.header),
            basic_auth: opt_pair(self.basic_auth),
        }
    }
}

/// What has to be done to bring a back-end up.
#[derive(Debug, Clone, PartialEq, Eq)]
pub enum StartAction {
    /// Nothing: the adapter is disabled, not configured, or already up.
    Nothing,
    /// Launch a process and keep it.
    Spawn(Launch),
    /// Make one HTTP request and report the status.
    Http(HttpProbe),
    /// Open a TCP connection to `host:port`, send `message`, and report the
    /// first bytes that come back.
    Hello { host: String, port: u16, message: String },
    /// Run a command to completion and report whether it exited with
    /// status 0.
    Check(Launch),
    /// Create `data_dir` if it is absent, then connect the embedded mixnet
    /// client through this provider.
    Mixnet { provider: String, data_dir: String },
}

/// A `StartAction` with its texts as sequences.
pub enum StartActionView {
    Nothing,
    Spawn(LaunchView),
    Http(HttpProbeView),
    Hello { host: Seq<char>, port: u16, message: Seq<char> },
    Check(LaunchView),
    Mixnet { provider: Seq<char>, data_dir: Seq<char> },
}

impl View for StartAction {
    type V = StartActionView;

    open spec fn view(&self) -> StartActionView {
        match self {
            StartAction::Nothing => StartActionView::Nothing,
            StartAction::Spawn(l) => StartActionView::Spawn(l@),
            StartAction::Http(p) => StartActionView::Http(p@),
            StartAction::Hello { host, port, message } => StartActionView::Hello {
                host: host@,
                port: *port,
                message: message@,
            },
            StartAction::Check(l) => StartActionView::Check(l@),
            StartAction::Mixnet { provider, data_dir } => StartActionView::Mixnet {
                provider: provider@,
                data_dir: data_dir@,
            },
        }
    }
}

/// What came of a `StartAction`.
#[derive(Debug, Clone, PartialEq, Eq)]
pub enum StartOutcome {
    /// The program to launch does not exist.
    Missing,
    /// The process is running, or the session is connected.
    Up,
    /// The endpoint answered with this HTTP status.
    Status(u16),
    /// The endpoint answered with these bytes.
    Reply(Vec<u8>),
    /// The command ran; `true` for exit status 0.
    Exited(bool),
    /// The work could not be done.
    Failed,
}

/// A `StartOutcome` with its bytes as a sequence.
pub enum StartOutcomeView {
    Missing,
    Up,
    Status(u16),
    Reply(Seq<u8>),
    Exited(bool),
    Failed,
}

impl View for StartOutcome {
    type V = StartOutcomeView;

    open spec fn view(&self) -> StartOutcomeView {
        match self {
            StartOutcome::Missing => StartOutcomeView::Missing,
            StartOutcome::Up => StartOutcomeView::Up,
            StartOutcome::Status(s) => StartOutcomeView::Status(*s),
            StartOutcome::Reply(b) => StartOutcomeView::Reply(b@),
            StartOutcome::Exited(ok) => StartOutcomeView::Exited(*ok),
            StartOutcome::Failed => StartOutcomeView::Failed,
        }
    }
}

/// What an outcome means for the adapter that asked.
#[derive(Debug, Clone, Copy, PartialEq, Eq, Structural)]
pub enum Verdict {
    /// The back-end is up.
    Up,
    /// The back-end is not there this run. That is no error.
    Absent,
    /// The start failed.
    Error,
}

/// How a start that did not fail ended.
#[derive(Debug, Clone, Copy, PartialEq, Eq, Structural)]
pub enum Started {
    /// The back-end is running.
    Running,
    /// The back-end is unusable this run; a warning is in order.
    Unavailable,
}

/// Why a start failed.
#[derive(Debug, Clone, Copy, PartialEq, Eq, Structural)]
pub enum StartError {
    /// The work that `start` asked for could not be done.
    Failed,
    /// No start was in progress.
    OutOfTurn,
}

/// How to let go of what an adapter holds.
#[derive(Debug, Clone, PartialEq, Eq)]
pub enum StopAction {
    /// Nothing is held.
    Nothing,
    /// Kill the child process and wait for it.
    Kill,
    /// Drop the session and mark it not connected.
    Disconnect,
    /// Run this command to completion, then forget the child.
    Run(Launch),
}

/// A `StopAction` with its texts as sequences.
pub enum StopActionView {
    Nothing,
    Kill,
    Disconnect,
    Run(LaunchView),
}

impl View for StopAction {
    type V = StopActionView;

    open spec fn view(&self) -> StopActionView {
        match self {
            StopAction::Nothing => StopActionView::Nothing,
            StopAction::Kill => StopActionView::Kill,
            StopAction::Disconnect => StopActionView::Disconnect,
            StopAction::Run(l) => StopActionView::Run(l@),
        }
    }
}

/// Whether `start` goes ahead: the adapter is ready and no process or
/// session is live or on its way.
pub open spec fn will_start(state: AdapterState, ready: bool) -> bool {
    ready && state != AdapterState::Starting && state != AdapterState::Running
}

/// Whether something is held in `state` that `stop` has to let go of.
pub open spec fn holds_handle(state: AdapterState) -> bool {
    state == AdapterState::Starting || state == AdapterState::Running || state
        == AdapterState::Degraded
}

/// The state after an outcome with verdict `v` reached an adapter in
/// `state`.
pub open spec fn settled(state: AdapterState, v: Verdict) -> AdapterState {
    if state == AdapterState::Starting {
        if v == Verdict::Up {
            AdapterState::Running
        } else {
            AdapterState::Idle
        }
    } else {
        state
    }
}

/// What `finish_start` returns for an outcome with verdict `v` in `state`.
pub open spec fn start_result(state: AdapterState, v: Verdict) -> Result<Started, StartError> {
    if state != AdapterState::Starting {
        Err(StartError::OutOfTurn)
    } else {
        match v {
            Verdict::Up => Ok(Started::Running),
            Verdict::Absent => Ok(Started::Unavailable),
            Verdict::Error => Err(StartError::Failed),
        }
    }
}

/// An HTTP status in the success class.
pub open spec fn is_success(status: u16) -> bool {
    200 <= status <= 299
}

/// The lifecycle state kept by every adapter.
#[derive(Debug, Clone, Copy, PartialEq, Eq)]
pub struct Lifecycle {
    pub state: AdapterState,
}

impl Lifecycle {
    /// A lifecycle that has not begun.
    pub fn new() -> (r: Lifecycle)
        ensures
            r.state == AdapterState::Idle,
    {
        Lifecycle { state: AdapterState::Idle }
    }

    /// Begins a start if one is due; tells whether it is.
    pub fn begin(&mut self, ready: bool) -> (go: bool)
        ensures
            go == will_start(old(self).state, ready),
            final(self).state == if go {
                AdapterState::Starting
            } else {
                old(self).state
            },
    {
        let go = ready && self.state != AdapterState::Starting && self.state
            != AdapterState::Running;
        if go {
            self.state = AdapterState::Starting;
        }
        go
    }

    /// Ends a start with verdict `v`.
    pub fn settle(&mut self, v: Verdict) -> (r: Result<Started, StartError>)
        ensures
            final(self).state == settled(old(self).state, v),
            r == start_result(old(self).state, v),
    {
        if self.state != AdapterState::Starting {
            return Err(StartError::OutOfTurn);
        }
        match v {
            Verdict::Up => {
                self.state = AdapterState::Running;
                Ok(Started::Running)
            },
            Verdict::Absent => {
                self.state = AdapterState::Idle;
                Ok(Started::Unavailable)
            },
            Verdict::Error => {
                self.state = AdapterState::Idle;
                Err(StartError::Failed)
            },
        }
    }

    /// Stops; tells whether something was held.
    pub fn halt(&mut self) -> (held: bool)
        ensures
            held == holds_handle(old(self).state),
            final(self).state == AdapterState::Stopped,
    {
        let held = self.state == AdapterState::Starting || self.state == AdapterState::Running
            || self.state == AdapterState::Degraded;
        self.state = AdapterState::Stopped;
        held
    }

    /// Records that the process exited or the session was lost.
    pub fn lose(&mut self)
        ensures
            final(self).state == if old(self).state == AdapterState::Running {
                AdapterState::Degraded
            } else {
                old(self).state
            },
    {
        if self.state == AdapterState::Running {
            self.state = AdapterState::Degraded;
        }
    }

    /// Whether the process or session is live.
    pub fn healthy(&self) -> (r: bool)
        ensures
            r == (self.state == AdapterState::Running),
    {
        self.state == AdapterState::Running
    }
}

/// What an outcome means for a back-end that is a launched process: a
/// missing program is an absence, a live process is up, and anything else
/// is a failure.
pub open spec fn spawn_verdict(outcome: StartOutcomeView) -> Verdict {
    match outcome {
        StartOutcomeView::Missing => Verdict::Absent,
        StartOutcomeView::Up => Verdict::Up,
        _ => Verdict::Error,
    }
}

/// Judges the outcome of a launch.
pub fn judge_spawn(outcome: &StartOutcome) -> (v: Verdict)
    ensures
        v == spawn_verdict(outcome@),
{
    match outcome {
        StartOutcome::Missing => Verdict::Absent,
        StartOutcome::Up => Verdict::Up,
        _ => Verdict::Error,
    }
}

/// What an outcome means for a back-end that is probed over HTTP. With
/// `any_answer` every status counts as up, otherwise only a status in the
/// success class; a back-end that does not answer is absent.
pub open spec fn http_verdict(outcome: StartOutcomeView, any_answer: bool) -> Verdict {
    match outcome {
        StartOutcomeView::Status(s) => if any_answer || is_success(s) {
            Verdict::Up
        } else {
            Verdict::Absent
        },
        _ => Verdict::Absent,
    }
}

/// Judges the outcome of an HTTP probe.
pub fn judge_http(outcome: &StartOutcome, any_answer: bool) -> (v: Verdict)
    ensures
        v == http_verdict(outcome@, any_answer),
{
    match outcome {
        StartOutcome::Status(s) => if any_answer || status_is_success(*s) {
            Verdict::Up
        } else {
            Verdict::Absent
        },
        _ => Verdict::Absent,
    }
}

/// An owned copy of a text.
pub fn text(s: &str) -> (r: String)
    ensures
        r@ == s@,
{
    String::from_str(s)
}

/// A copy of an optional text.
pub fn copy_opt(o: &Option<String>) -> (r: Option<String>)
    ensures
        opt_text(r) == opt_text(*o),
{
    match o {
        Some(s) => Some(s.clone()),
        None => None,
    }
}

/// One environment variable.
pub fn env_var(name: &str, value: &str) -> (r: EnvVar)
    ensures
        r.name@ == name@,
        r.value@ == value@,
{
    EnvVar { name: String::from_str(name), value: String::from_str(value) }
}

/// Appends `e` to a list of environment variables.
pub fn push_env(v: &mut Vec<EnvVar>, e: EnvVar)
    ensures
        env_texts(final(v)@) == env_texts(old(v)@).push((e.name@, e.value@)),
{
    v.push(e);
    assert(env_texts(v@) =~= env_texts(old(v)@).push((e.name@, e.value@)));
}

/// A launch of `program` with `args` and nothing else.
pub fn launch_of(program: String, args: Vec<String>) -> (r: Launch)
    ensures
        r@ == plain_launch(program@, texts(args@)),
{
    let r = Launch {
        program,
        args,
        env: Vec::new(),
        data_dir: None,
        template: None,
        stdin_file: None,
        skip_if_missing: false,
        capture_output: false,
    };
    assert(env_texts(r.env@) =~= Seq::empty());
    r
}

/// Tells whether an HTTP status is in the success class.
pub fn status_is_success(status: u16) -> (r: bool)
    ensures
        r == is_success(status),
{
    200 <= status && status <= 299
}

/// Appends `s` to a list of strings.
pub fn push_text(v: &mut Vec<String>, s: String)
    ensures
        texts(final(v)@) == texts(old(v)@).push(s@),
{
    v.push(s);
    assert(texts(v@) =~= texts(old(v)@).push(s@));
}

/// The uniform surface over one back-end.
pub trait ProtocolAdapter: Sized {
    /// Where the adapter stands.
    spec fn state(&self) -> AdapterState;

    /// This adapter in another state, its configuration unchanged.
    spec fn in_state(self, state: AdapterState) -> Self;

    /// Whether the back-end is enabled and configured well enough to start.
    spec fn ready(&self) -> bool;

    /// What a start asks for when it goes ahead.
    spec fn start_request(&self) -> StartActionView;

    /// What an outcome means for this back-end.
    spec fn judge(&self, outcome: StartOutcomeView) -> Verdict;

    /// How a held process or session is let go of.
    spec fn stop_request(&self) -> StopActionView;

    /// The address clients of the router are given for this back-end; empty
    /// for a back-end that offers no proxy.
    spec fn proxy_addr(&self) -> Seq<char>;

    /// Begins a start. Nothing is asked for, and nothing changes, when the
    /// adapter is not ready or is already starting or running.
    fn start(&mut self) -> (a: StartAction)
        ensures
            *final(self) == if will_start(old(self).state(), old(self).ready()) {
                old(self).in_state(AdapterState::Starting)
            } else {
                *old(self)
            },
            a@ == if will_start(old(self).state(), old(self).ready()) {
                old(self).start_request()
            } else {
                StartActionView::Nothing
            },
    ;

    /// Takes the outcome of what `start` asked for.
    fn finish_start(&mut self, outcome: StartOutcome) -> (r: Result<Started, StartError>)
        ensures
            *final(self) == old(self).in_state(
                settled(old(self).state(), old(self).judge(outcome@)),
            ),
            r == start_result(old(self).state(), old(self).judge(outcome@)),
    ;

    /// Stops the adapter and says how to let go of what was held.
    fn stop(&mut self) -> (a: StopAction)
        ensures
            *final(self) == old(self).in_state(AdapterState::Stopped),
            a@ == if holds_handle(old(self).state()) {
                old(self).stop_request()
            } else {
                StopActionView::Nothing
            },
    ;

    /// Records that the process exited or the session was lost.
    fn mark_lost(&mut self)
        ensures
            *final(self) == old(self).in_state(
                if old(self).state() == AdapterState::Running {
                    AdapterState::Degraded
                } else {
                    old(self).state()
                },
            ),
    ;

    /// The proxy address of this back-end.
    fn get_proxy_addr(&self) -> (r: String)
        ensures
            r@ == self.proxy_addr(),
    ;

    /// Whether the process or session is live. Looks at the state and
    /// nothing else.
    fn is_healthy(&self) -> (r: bool)
        ensures
            r == (self.state() == AdapterState::Running),
    ;
}

} // verus!
