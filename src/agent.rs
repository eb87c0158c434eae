//! The agent's reconciler: a state machine that, fed the outcome of each
//! piece of outside work, decides the next one. The surrounding program
//! performs the actions (requests to the coordinator, signals, archiving,
//! cloning, forking) and hands back what came of them.

use vstd::prelude::*;
use rand::Rng;
use crate::descriptor::ExperimentDescriptor;
use crate::host::{state_invocation, Host, HostState};
use crate::ids::{uuid_parse_of, HostId, InvocationId};
use crate::response::ResponseError;
use crate::invocation::{Invocation, InvocationRecord};
use crate::text::{copy_str, join, join_path, same_text};

verus! {

/// Consecutive failures to reach the coordinator after which the agent gives
/// up its run.
pub const RETRY_LIMIT: u32 = 128;

/// The largest exponent of the randomized backoff.
pub const BACKOFF_CAP: u32 = 3;

/// The unit of the randomized backoff, in milliseconds.
pub const BACKOFF_UNIT_MS: u64 = 500;

/// Relies on `rand::Rng::gen_range` over `thread_rng`: a value in `0..n`.
/// The range must not be empty.
#[verifier::external_body]
fn random_below(n: u64) -> (r: u64)
    requires
        n > 0,
    ensures
        r < n,
{
    rand::thread_rng().gen_range(0..n)
}

/// The number of backoff slots after `retries` failures: `2^min(retries, 3)`.
pub open spec fn backoff_window_spec(retries: u32) -> u64 {
    if retries >= 3 { 8 } else if retries == 2 { 4 } else if retries == 1 { 2 } else { 1 }
}

/// The number of backoff slots after `retries` failures.
pub fn backoff_window(retries: u32) -> (r: u64)
    ensures
        r == backoff_window_spec(retries),
{
    if retries >= BACKOFF_CAP { 8 } else if retries == 2 { 4 } else if retries == 1 { 2 } else { 1 }
}

/// The length of `slot` backoff units, in milliseconds.
pub open spec fn slot_millis(slot: u64) -> int {
    slot * BACKOFF_UNIT_MS
}

/// The backoff for the drawn `slot` after `retries` failures.
pub fn backoff_for_slot(slot: u64, retries: u32) -> (r: u64)
    requires
        slot < backoff_window_spec(retries),
    ensures
        r == slot * BACKOFF_UNIT_MS,
{
    slot * BACKOFF_UNIT_MS
}

/// A random backoff after `retries` failures: a whole number of units drawn
/// from `[0, 2^min(retries, 3))`.
pub fn backoff_millis(retries: u32) -> (r: u64)
    ensures
        exists|slot: u64| #![trigger slot_millis(slot)] slot < backoff_window_spec(retries) && r == slot_millis(slot),
{
    let slot = random_below(backoff_window(retries));
    let r = backoff_for_slot(slot, retries);
    assert(r == slot_millis(slot));
    r
}

/// The status pusher's retry count after one more failure, capped at 3.
pub fn next_push_retries(retries: u32) -> (r: u32)
    ensures
        r == if retries >= BACKOFF_CAP { BACKOFF_CAP } else { (retries + 1) as u32 },
{
    if retries >= BACKOFF_CAP { BACKOFF_CAP } else { retries + 1 }
}

/// Why a poll failed. The host reports each of them as `Errored`.
#[derive(Clone, Copy, Debug, PartialEq, Eq, Structural)]
pub enum ClientErrorKind {
    /// Couldn't get the client hostname from the system.
    NoHostname,
    /// Requests reached the server, but its responses were errors.
    BadResponse,
    /// The subprocess for the invocation couldn't be forked.
    InvocationFailed,
    /// Couldn't compress the log directory for the current invocation.
    CompressionFailed,
    /// Couldn't upload the log archive for the current invocation.
    UploadFailed,
    /// There was a failure while attempting to clone the repository.
    CloningFailed,
    /// The cloned repository has commits missing.
    MissingCommits,
}

/// The sentence that describes a poll failure.
pub open spec fn client_error_text(k: ClientErrorKind) -> Seq<char> {
    match k {
        ClientErrorKind::NoHostname => "couldn't get the client hostname from the system"@,
        ClientErrorKind::BadResponse => "requests successfully reaching the server, but responses have returned errors"@,
        ClientErrorKind::InvocationFailed => "the subprocess for the invocation couldn't be forked"@,
        ClientErrorKind::CompressionFailed => "couldn't compress the log directory for the current invocation"@,
        ClientErrorKind::UploadFailed => "couldn't upload the log archive for the current invocation"@,
        ClientErrorKind::CloningFailed => "there was a failure while attempting to clone the repository"@,
        ClientErrorKind::MissingCommits => "the cloned repository has commits missing"@,
    }
}

impl ClientErrorKind {
    /// The sentence that describes the kind.
    pub fn describe(&self) -> (r: &'static str)
        ensures
            r@ == client_error_text(*self),
    {
        match *self {
            ClientErrorKind::NoHostname => "couldn't get the client hostname from the system",
            ClientErrorKind::BadResponse => "requests successfully reaching the server, but responses have returned errors",
            ClientErrorKind::InvocationFailed => "the subprocess for the invocation couldn't be forked",
            ClientErrorKind::CompressionFailed => "couldn't compress the log directory for the current invocation",
            ClientErrorKind::UploadFailed => "couldn't upload the log archive for the current invocation",
            ClientErrorKind::CloningFailed => "there was a failure while attempting to clone the repository",
            ClientErrorKind::MissingCommits => "the cloned repository has commits missing",
        }
    }
}

/// What the status pusher does after a push.
#[derive(Clone, Copy, Debug, PartialEq, Eq, Structural)]
pub enum PushStep {
    /// The coordinator took the status.
    Pushed,
    /// The coordinator answered `err`: it has forgotten this host, which
    /// registers again.
    Reregister,
    /// The coordinator was not reached: back off with this retry count and
    /// push again.
    Retry { retries: u32 },
}

/// Decides what follows a push that came back as `result`, after `retries`
/// failed pushes in a row.
pub fn after_push(result: &Result<(), ResponseError>, retries: u32) -> (r: PushStep)
    ensures
        r == (match result {
            Ok(_) => PushStep::Pushed,
            Err(e) => if e.kind is BadResponse {
                PushStep::Reregister
            } else {
                PushStep::Retry { retries: if retries >= BACKOFF_CAP { BACKOFF_CAP } else { (retries + 1) as u32 } }
            },
        }),
{
    match result {
        Ok(_) => PushStep::Pushed,
        Err(e) => if e.is_bad_response() {
            PushStep::Reregister
        } else {
            PushStep::Retry { retries: next_push_retries(retries) }
        },
    }
}

/// The run the agent supervises: the child's process group, the invocation
/// it runs, and the directory under the workspace where it leaves its logs.
#[derive(Debug)]
pub struct Executor {
    pub pid: i32,
    pub invocation: InvocationRecord,
    pub log_dir: String,
}

/// A signal sent to a run's process group.
#[derive(Clone, Copy, Debug, PartialEq, Eq, Structural)]
pub enum Signal {
    /// Signal 0: only tests that the group still exists.
    Probe,
    Terminate,
    Kill,
}

/// What the coordinator said when asked for the current invocation.
#[derive(Clone, Copy, Debug, PartialEq, Eq, Structural)]
pub enum CurrentReply {
    Id(InvocationId),
    /// Reached, and it has no current invocation.
    NoCurrent,
    /// Not reached.
    Unreachable,
}

impl CurrentReply {
    /// Reads the coordinator's answer to a request for the current
    /// invocation: an identifier it names; `NoCurrent` when it answered
    /// `err`; `Unreachable` when it could not be reached or its answer is no
    /// identifier.
    pub fn from_response(r: Result<String, ResponseError>) -> (reply: CurrentReply)
        ensures
            reply == (match r {
                Ok(t) => match uuid_parse_of(t@) {
                    Some(v) => CurrentReply::Id(InvocationId(v)),
                    None => CurrentReply::Unreachable,
                },
                Err(e) => if e.kind is BadResponse {
                    CurrentReply::NoCurrent
                } else {
                    CurrentReply::Unreachable
                },
            }),
    {
        match r {
            Ok(t) => match InvocationId::parse(t.as_str()) {
                Some(id) => CurrentReply::Id(id),
                None => CurrentReply::Unreachable,
            },
            Err(e) => if e.is_bad_response() {
                CurrentReply::NoCurrent
            } else {
                CurrentReply::Unreachable
            },
        }
    }
}

/// What came of cloning the source.
#[derive(Clone, Copy, Debug, PartialEq, Eq, Structural)]
pub enum CloneOutcome {
    Cloned,
    CloningFailed,
    MissingCommits,
}

/// What came of the last action.
#[derive(Debug)]
pub enum Event {
    /// Time for a poll.
    Tick,
    Current(CurrentReply),
    /// The backoff has elapsed.
    Slept,
    /// The invocation asked for; `None` when the coordinator answered `err`
    /// or could not be read.
    Invocation(Option<Invocation>),
    /// Whether the probe found the process group.
    Probed(bool),
    /// Whether a signal was delivered.
    Signalled(bool),
    /// Whether the log directory exists.
    LogsFound(bool),
    /// Whether the archive was built.
    Compressed(bool),
    /// Whether the coordinator accepted the archive.
    Uploaded(bool),
    /// Whether the existing clone was moved to the commit.
    Rewound(bool),
    Cloned(CloneOutcome),
    /// The child's process id, or `None` when the fork failed.
    Forked(Option<i32>),
    /// A terminating signal arrived.
    Shutdown,
}

/// The next piece of outside work.
#[derive(Debug)]
pub enum Action {
    /// Nothing until the next poll.
    Wait,
    FetchCurrent,
    /// Sleep `backoff_millis(retries)`, then report `Slept`.
    Backoff { retries: u32 },
    FetchInvocation { id: InvocationId },
    SendSignal { pid: i32, signal: Signal },
    CheckLogs { dir: String },
    Compress { dir: String, archive: String },
    /// Upload the archive as host `host`'s logs of `invocation`, and delete
    /// it once accepted.
    Upload { archive: String, invocation: InvocationId, host: HostId },
    /// Move the existing clone in the workspace to `commit`.
    Rewind { commit: String },
    /// Clone `url` afresh into the workspace and move it to `commit`.
    CloneRepo { url: String, commit: String },
    /// Fork a child in its own process group that runs the manifest's
    /// commands for `hostname` in `workspace` and exits.
    Fork { descriptor: ExperimentDescriptor, hostname: String, workspace: String },
    /// End the agent with this exit code.
    Exit { code: i32 },
}

/// Which step of a kill the agent is in.
#[derive(Clone, Copy, Debug, PartialEq, Eq, Structural)]
pub enum KillStep {
    Terminate,
    Kill,
    CheckLogs,
    Compress,
    Upload,
}

/// What follows a kill.
#[derive(Debug)]
pub enum Then {
    /// Set `Idle`.
    Idle,
    /// Nothing more.
    Nothing,
    /// Set `Done` for this invocation.
    Done(InvocationId),
    /// Fetch the source and start this invocation.
    Launch(InvocationRecord, ExperimentDescriptor),
    /// End the agent.
    Exit,
}

/// Where the agent stands in a poll.
#[derive(Debug)]
pub enum Phase {
    /// No poll in progress.
    Between,
    /// Asked for the current invocation after this many failures.
    AwaitCurrent(u32),
    /// Backing off after this many failures, less one.
    AwaitBackoff(u32),
    AwaitProbe,
    AwaitInvocation(InvocationId),
    Killing(KillStep, Then),
    AwaitRewind(InvocationRecord, ExperimentDescriptor),
    AwaitClone(InvocationRecord, ExperimentDescriptor),
    /// Forking the run of the invocation, whose logs go to the directory.
    AwaitFork(InvocationRecord, String),
}

/// The agent: its workspace, its host record as it reports it, the run it
/// supervises, the run before (kept to drain its logs and reuse its clone),
/// and where it stands in a poll.
#[derive(Debug)]
pub struct Client {
    pub path: String,
    pub host: Host,
    pub executor: Option<Executor>,
    pub history: Option<Executor>,
    pub phase: Phase,
}

/// The archive that a run's logs are packed into.
pub open spec fn archive_path(workspace: Seq<char>) -> Seq<char> {
    join_path(workspace, "archive.tar.gz"@)
}

impl Client {
    /// `c` with its poll over.
    pub open spec fn between(c: Client) -> Client {
        Client { phase: Phase::Between, ..c }
    }

    /// `c` with its host in `state`.
    pub open spec fn in_state(c: Client, state: HostState) -> Client {
        Client { host: Host { state: state, ..c.host }, ..c }
    }

    /// A poll that failed: the supervised run, if any, is `Errored`; with no
    /// run the state stays as it was.
    pub open spec fn poll_failed(c: Client, d: Client, a: Action) -> bool {
        &&& d == match c.executor {
            Some(x) => Self::in_state(c, HostState::Errored(x.invocation.id)),
            None => c,
        }
        &&& a == Action::Wait
    }

    /// A kill that failed: the run being killed is `Errored`, or the agent
    /// exits with 1.
    pub open spec fn kill_failed(c: Client, then: Then, d: Client, a: Action) -> bool {
        match then {
            Then::Exit => d == c && a == (Action::Exit { code: 1 }),
            _ => {
                &&& d == match c.history {
                    Some(h) => Self::in_state(c, HostState::Errored(h.invocation.id)),
                    None => c,
                }
                &&& a == Action::Wait
            },
        }
    }

    /// What follows a kill, or a kill with no run to stop.
    pub open spec fn resumed(c: Client, then: Then, d: Client, a: Action) -> bool {
        match then {
            Then::Idle => d == Self::in_state(c, HostState::Idle) && a == Action::Wait,
            Then::Nothing => d == c && a == Action::Wait,
            Then::Done(id) => d == Self::in_state(c, HostState::Done(id)) && a == Action::Wait,
            Then::Exit => d == c && a == (Action::Exit { code: 0 }),
            Then::Launch(rec, desc) => if c.history matches Some(h) && h.invocation.url@ == rec.url@ {
                &&& d == Client { phase: Phase::AwaitRewind(rec, desc), ..c }
                &&& a == (Action::Rewind { commit: rec.commit })
            } else {
                &&& d == Client { phase: Phase::AwaitClone(rec, desc), ..c }
                &&& a == (Action::CloneRepo { url: rec.url, commit: rec.commit })
            },
        }
    }

    /// The start of a kill: the run becomes the history and its process
    /// group is sent `SIGTERM`. With no run, what follows comes at once.
    pub open spec fn kill_started(c: Client, then: Then, d: Client, a: Action) -> bool {
        match c.executor {
            Some(x) => {
                &&& d == Client { executor: None, history: Some(x), phase: Phase::Killing(KillStep::Terminate, then), ..c }
                &&& a == (Action::SendSignal { pid: x.pid, signal: Signal::Terminate })
            },
            None => Self::resumed(c, then, d, a),
        }
    }

    /// The end of a kill: the killed run is `Done`, then what follows.
    pub open spec fn kill_finished(c: Client, then: Then, d: Client, a: Action) -> bool {
        match c.history {
            Some(h) => Self::resumed(Self::in_state(c, HostState::Done(h.invocation.id)), then, d, a),
            None => Self::resumed(c, then, d, a),
        }
    }

    /// The fork of a run whose source is in place.
    pub open spec fn fork_asked(c: Client, rec: InvocationRecord, desc: ExperimentDescriptor, d: Client, a: Action) -> bool {
        &&& d == Client { phase: Phase::AwaitFork(rec, desc.log_dir), ..c }
        &&& a == (Action::Fork { descriptor: desc, hostname: c.host.hostname, workspace: c.path })
    }

    /// One step of the agent: fed event `e` in state `c`, it moves to state
    /// `d` and asks for action `a`. An event that the state does not await
    /// changes nothing.
    pub open spec fn stepped(c: Client, e: Event, d: Client, a: Action) -> bool {
        let b = Self::between(c);
        match c.phase {
            Phase::Between => match e {
                Event::Tick => d == Client { phase: Phase::AwaitCurrent(0), ..c } && a == Action::FetchCurrent,
                Event::Shutdown => Self::kill_started(b, Then::Exit, d, a),
                _ => d == c && a == Action::Wait,
            },
            Phase::AwaitCurrent(n) => match e {
                Event::Current(CurrentReply::Unreachable) => if n + 1 >= RETRY_LIMIT {
                    Self::kill_started(b, Then::Idle, d, a)
                } else {
                    d == Client { phase: Phase::AwaitBackoff(n), ..c } && a == (Action::Backoff { retries: n })
                },
                Event::Current(CurrentReply::NoCurrent) => Self::kill_started(b, Then::Idle, d, a),
                Event::Current(CurrentReply::Id(id)) => if state_invocation(c.host.state) == Some(id) {
                    match c.executor {
                        Some(x) => d == Client { phase: Phase::AwaitProbe, ..c }
                            && a == (Action::SendSignal { pid: x.pid, signal: Signal::Probe }),
                        None => d == b && a == Action::Wait,
                    }
                } else {
                    d == Client { phase: Phase::AwaitInvocation(id), ..c } && a == (Action::FetchInvocation { id })
                },
                _ => d == c && a == Action::Wait,
            },
            Phase::AwaitBackoff(n) => match e {
                Event::Slept => d == Client { phase: Phase::AwaitCurrent(if n < RETRY_LIMIT { (n + 1) as u32 } else { n }), ..c }
                    && a == Action::FetchCurrent,
                _ => d == c && a == Action::Wait,
            },
            Phase::AwaitProbe => match e {
                Event::Probed(found) => if found {
                    d == b && a == Action::Wait
                } else {
                    Self::kill_started(b, Then::Nothing, d, a)
                },
                _ => d == c && a == Action::Wait,
            },
            Phase::AwaitInvocation(id) => match e {
                Event::Invocation(Some(inv)) => if inv.id != id {
                    Self::poll_failed(b, d, a)
                } else if inv.log_of(c.host.hostname@) is Some {
                    Self::kill_started(b, Then::Done(id), d, a)
                } else {
                    match inv.descriptor {
                        Some(desc) => Self::kill_started(b, Then::Launch(inv.record_spec(), desc), d, a),
                        None => Self::poll_failed(b, d, a),
                    }
                },
                Event::Invocation(None) => Self::poll_failed(b, d, a),
                _ => d == c && a == Action::Wait,
            },
            Phase::Killing(step, then) => match c.history {
                None => Self::resumed(b, then, d, a),
                Some(h) => match (step, e) {
                    (KillStep::Terminate, Event::Signalled(_)) => d == Client { phase: Phase::Killing(KillStep::Kill, then), ..c }
                        && a == (Action::SendSignal { pid: h.pid, signal: Signal::Kill }),
                    (KillStep::Kill, Event::Signalled(_)) => d == Client { phase: Phase::Killing(KillStep::CheckLogs, then), ..c }
                        && (a matches Action::CheckLogs { dir } && dir@ == join_path(c.path@, h.log_dir@)),
                    (KillStep::CheckLogs, Event::LogsFound(found)) => if found {
                        &&& d == Client { phase: Phase::Killing(KillStep::Compress, then), ..Self::in_state(c, HostState::Compressing(h.invocation.id)) }
                        &&& (a matches Action::Compress { dir, archive } && dir@ == join_path(c.path@, h.log_dir@)
                            && archive@ == archive_path(c.path@))
                    } else {
                        Self::kill_finished(b, then, d, a)
                    },
                    (KillStep::Compress, Event::Compressed(ok)) => if ok {
                        &&& d == Client { phase: Phase::Killing(KillStep::Upload, then), ..Self::in_state(c, HostState::Uploading(h.invocation.id)) }
                        &&& (a matches Action::Upload { archive, invocation, host } && archive@ == archive_path(c.path@)
                            && invocation == h.invocation.id && host == c.host.id)
                    } else {
                        Self::kill_failed(b, then, d, a)
                    },
                    (KillStep::Upload, Event::Uploaded(ok)) => if ok {
                        Self::kill_finished(b, then, d, a)
                    } else {
                        Self::kill_failed(b, then, d, a)
                    },
                    _ => d == c && a == Action::Wait,
                },
            },
            Phase::AwaitRewind(rec, desc) => match e {
                Event::Rewound(ok) => if ok {
                    Self::fork_asked(c, rec, desc, d, a)
                } else {
                    &&& d == Client { phase: Phase::AwaitClone(rec, desc), ..c }
                    &&& a == (Action::CloneRepo { url: rec.url, commit: rec.commit })
                },
                _ => d == c && a == Action::Wait,
            },
            Phase::AwaitClone(rec, desc) => match e {
                Event::Cloned(CloneOutcome::Cloned) => Self::fork_asked(c, rec, desc, d, a),
                Event::Cloned(_) => Self::poll_failed(b, d, a),
                _ => d == c && a == Action::Wait,
            },
            Phase::AwaitFork(rec, log_dir) => match e {
                Event::Forked(Some(pid)) => d == Client {
                    executor: Some(Executor { pid, invocation: rec, log_dir }),
                    ..Self::in_state(b, HostState::Running(rec.id))
                } && a == Action::Wait,
                Event::Forked(None) => Self::poll_failed(b, d, a),
                _ => d == c && a == Action::Wait,
            },
        }
    }

    /// An agent for `host`, whose workspace is `path`, with no run.
    pub fn new(host: Host, path: &str) -> (r: Client)
        ensures
            r.host == host,
            r.path@ == path@,
            r.executor is None,
            r.history is None,
            r.phase == Phase::Between,
    {
        Client { path: path.to_string(), host, executor: None, history: None, phase: Phase::Between }
    }

    pub fn host(&self) -> (r: &Host)
        ensures
            *r == self.host,
    {
        &self.host
    }

    pub fn executor(&self) -> (r: &Option<Executor>)
        ensures
            *r == self.executor,
    {
        &self.executor
    }

    /// Whether no poll is in progress.
    pub fn is_between(&self) -> (r: bool)
        ensures
            r == (self.phase is Between),
    {
        match self.phase {
            Phase::Between => true,
            _ => false,
        }
    }

    /// Takes the identity that registering again handed out; the state and
    /// the run are kept.
    pub fn adopt_identity(&mut self, id: HostId)
        ensures
            *final(self) == (Client { host: Host { id: id, ..old(self).host }, ..*old(self) }),
    {
        self.host.id = id;
    }

    fn set_state(&mut self, state: HostState)
        ensures
            *final(self) == Self::in_state(*old(self), state),
    {
        self.host.state = state;
    }

    fn fail_poll(&mut self) -> (a: Action)
        ensures
            Self::poll_failed(*old(self), *final(self), a),
    {
        let run = match &self.executor {
            Some(x) => Some(x.invocation.id),
            None => None,
        };
        match run {
            Some(id) => self.set_state(HostState::Errored(id)),
            None => {},
        }
        Action::Wait
    }

    fn fail_kill(&mut self, then: Then) -> (a: Action)
        ensures
            Self::kill_failed(*old(self), then, *final(self), a),
    {
        match then {
            Then::Exit => Action::Exit { code: 1 },
            _ => {
                let run = match &self.history {
                    Some(h) => Some(h.invocation.id),
                    None => None,
                };
                match run {
                    Some(id) => self.set_state(HostState::Errored(id)),
                    None => {},
                }
                Action::Wait
            },
        }
    }

    fn resume(&mut self, then: Then) -> (a: Action)
        ensures
            Self::resumed(*old(self), then, *final(self), a),
    {
        match then {
            Then::Idle => {
                self.set_state(HostState::Idle);
                Action::Wait
            },
            Then::Nothing => Action::Wait,
            Then::Done(id) => {
                self.set_state(HostState::Done(id));
                Action::Wait
            },
            Then::Exit => Action::Exit { code: 0 },
            Then::Launch(rec, desc) => {
                let reuse = match &self.history {
                    Some(h) => same_text(h.invocation.url.as_str(), rec.url.as_str()),
                    None => false,
                };
                if reuse {
                    let commit = copy_str(&rec.commit);
                    self.phase = Phase::AwaitRewind(rec, desc);
                    Action::Rewind { commit }
                } else {
                    let url = copy_str(&rec.url);
                    let commit = copy_str(&rec.commit);
                    self.phase = Phase::AwaitClone(rec, desc);
                    Action::CloneRepo { url, commit }
                }
            },
        }
    }

    fn start_kill(&mut self, then: Then) -> (a: Action)
        ensures
            Self::kill_started(*old(self), then, *final(self), a),
    {
        let mut run: Option<Executor> = None;
        std::mem::swap(&mut self.executor, &mut run);
        match run {
            Some(x) => {
                let pid = x.pid;
                self.history = Some(x);
                self.phase = Phase::Killing(KillStep::Terminate, then);
                Action::SendSignal { pid, signal: Signal::Terminate }
            },
            None => self.resume(then),
        }
    }

    fn finish_kill(&mut self, then: Then) -> (a: Action)
        ensures
            Self::kill_finished(*old(self), then, *final(self), a),
    {
        let done = match &self.history {
            Some(h) => Some(h.invocation.id),
            None => None,
        };
        match done {
            Some(id) => self.set_state(HostState::Done(id)),
            None => {},
        }
        self.resume(then)
    }

    fn ask_fork(&mut self, rec: InvocationRecord, desc: ExperimentDescriptor) -> (a: Action)
        ensures
            Self::fork_asked(*old(self), rec, desc, *final(self), a),
    {
        let log_dir = copy_str(&desc.log_dir);
        let hostname = copy_str(&self.host.hostname);
        let workspace = copy_str(&self.path);
        self.phase = Phase::AwaitFork(rec, log_dir);
        Action::Fork { descriptor: desc, hostname, workspace }
    }

    /// Feeds the agent event `e`; the result is the next action to perform.
    pub fn step(&mut self, e: Event) -> (a: Action)
        ensures
            Self::stepped(*old(self), e, *final(self), a),
    {
        let mut phase = Phase::Between;
        std::mem::swap(&mut self.phase, &mut phase);
        match phase {
            Phase::Between => match e {
                Event::Tick => {
                    self.phase = Phase::AwaitCurrent(0);
                    Action::FetchCurrent
                },
                Event::Shutdown => self.start_kill(Then::Exit),
                _ => Action::Wait,
            },
            Phase::AwaitCurrent(n) => match e {
                Event::Current(CurrentReply::Unreachable) => if n >= RETRY_LIMIT - 1 {
                    self.start_kill(Then::Idle)
                } else {
                    self.phase = Phase::AwaitBackoff(n);
                    Action::Backoff { retries: n }
                },
                Event::Current(CurrentReply::NoCurrent) => self.start_kill(Then::Idle),
                Event::Current(CurrentReply::Id(id)) => {
                    let same = match self.host.current_invocation() {
                        Some(oid) => oid == id,
                        None => false,
                    };
                    if same {
                        match &self.executor {
                            Some(x) => {
                                let pid = x.pid;
                                self.phase = Phase::AwaitProbe;
                                Action::SendSignal { pid, signal: Signal::Probe }
                            },
                            None => Action::Wait,
                        }
                    } else {
                        self.phase = Phase::AwaitInvocation(id);
                        Action::FetchInvocation { id }
                    }
                },
                _ => {
                    self.phase = Phase::AwaitCurrent(n);
                    Action::Wait
                },
            },
            Phase::AwaitBackoff(n) => match e {
                Event::Slept => {
                    let m = if n < RETRY_LIMIT { n + 1 } else { n };
                    self.phase = Phase::AwaitCurrent(m);
                    Action::FetchCurrent
                },
                _ => {
                    self.phase = Phase::AwaitBackoff(n);
                    Action::Wait
                },
            },
            Phase::AwaitProbe => match e {
                Event::Probed(found) => if found {
                    Action::Wait
                } else {
                    self.start_kill(Then::Nothing)
                },
                _ => {
                    self.phase = Phase::AwaitProbe;
                    Action::Wait
                },
            },
            Phase::AwaitInvocation(id) => match e {
                Event::Invocation(Some(inv)) => if inv.id != id {
                    self.fail_poll()
                } else if inv.host_has_logged(self.host.hostname.as_str()) {
                    self.start_kill(Then::Done(id))
                } else {
                    match inv.split() {
                        Some((rec, desc)) => self.start_kill(Then::Launch(rec, desc)),
                        None => self.fail_poll(),
                    }
                },
                Event::Invocation(None) => self.fail_poll(),
                _ => {
                    self.phase = Phase::AwaitInvocation(id);
                    Action::Wait
                },
            },
            Phase::Killing(step, then) => {
                let (pid, hid, log_dir) = match &self.history {
                    Some(h) => (h.pid, h.invocation.id, copy_str(&h.log_dir)),
                    None => {
                        return self.resume(then);
                    },
                };
                match (step, e) {
                    (KillStep::Terminate, Event::Signalled(_)) => {
                        self.phase = Phase::Killing(KillStep::Kill, then);
                        Action::SendSignal { pid, signal: Signal::Kill }
                    },
                    (KillStep::Kill, Event::Signalled(_)) => {
                        let dir = join(self.path.as_str(), log_dir.as_str());
                        self.phase = Phase::Killing(KillStep::CheckLogs, then);
                        Action::CheckLogs { dir }
                    },
                    (KillStep::CheckLogs, Event::LogsFound(found)) => if found {
                        let dir = join(self.path.as_str(), log_dir.as_str());
                        let archive = join(self.path.as_str(), "archive.tar.gz");
                        self.set_state(HostState::Compressing(hid));
                        self.phase = Phase::Killing(KillStep::Compress, then);
                        Action::Compress { dir, archive }
                    } else {
                        self.finish_kill(then)
                    },
                    (KillStep::Compress, Event::Compressed(ok)) => if ok {
                        let archive = join(self.path.as_str(), "archive.tar.gz");
                        self.set_state(HostState::Uploading(hid));
                        self.phase = Phase::Killing(KillStep::Upload, then);
                        Action::Upload { archive, invocation: hid, host: self.host.id }
                    } else {
                        self.fail_kill(then)
                    },
                    (KillStep::Upload, Event::Uploaded(ok)) => if ok {
                        self.finish_kill(then)
                    } else {
                        self.fail_kill(then)
                    },
                    _ => {
                        self.phase = Phase::Killing(step, then);
                        Action::Wait
                    },
                }
            },
            Phase::AwaitRewind(rec, desc) => match e {
                Event::Rewound(ok) => if ok {
                    self.ask_fork(rec, desc)
                } else {
                    let url = copy_str(&rec.url);
                    let commit = copy_str(&rec.commit);
                    self.phase = Phase::AwaitClone(rec, desc);
                    Action::CloneRepo { url, commit }
                },
                _ => {
                    self.phase = Phase::AwaitRewind(rec, desc);
                    Action::Wait
                },
            },
            Phase::AwaitClone(rec, desc) => match e {
                Event::Cloned(CloneOutcome::Cloned) => self.ask_fork(rec, desc),
                Event::Cloned(_) => self.fail_poll(),
                _ => {
                    self.phase = Phase::AwaitClone(rec, desc);
                    Action::Wait
                },
            },
            Phase::AwaitFork(rec, log_dir) => match e {
                Event::Forked(Some(pid)) => {
                    let id = rec.id;
                    self.set_state(HostState::Running(id));
                    self.executor = Some(Executor { pid, invocation: rec, log_dir });
                    Action::Wait
                },
                Event::Forked(None) => self.fail_poll(),
                _ => {
                    self.phase = Phase::AwaitFork(rec, log_dir);
                    Action::Wait
                },
            },
        }
    }
}

/// Whether `s` is the state of a host whose run of `id` is underway.
pub open spec fn runs(s: HostState, id: InvocationId) -> bool {
    s == HostState::Running(id) || s == HostState::Errored(id)
}

/// How far a run has come: running (or failing while it runs), compressing,
/// uploading, done.
pub open spec fn progress(s: HostState) -> int {
    match s {
        HostState::Running(_) => 1,
        HostState::Errored(_) => 1,
        HostState::Compressing(_) => 2,
        HostState::Uploading(_) => 3,
        HostState::Done(_) => 4,
        _ => 0,
    }
}

/// Whether reporting `t` after `s` keeps a run's states in order: within
/// one invocation a run never goes back, and it can fail (`Errored`) at any
/// point before it is done; and `Running` starts a run only of an invocation
/// the host was not in.
pub open spec fn in_order(s: HostState, t: HostState) -> bool {
    &&& (state_invocation(s) is Some && state_invocation(s) == state_invocation(t))
        ==> (progress(s) <= progress(t) || (t is Errored && !(s is Done)))
    &&& (t is Running && s != t) ==> state_invocation(s) != state_invocation(t)
}

impl Client {
    /// The agent's invariant: a supervised run is the invocation the host is
    /// in; a kill holds the killed run in `history` and the host in a state of
    /// that run; an invocation being fetched or started is not the one the
    /// host is in.
    pub open spec fn inv(&self) -> bool {
        &&& self.executor matches Some(x) ==> runs(self.host.state, x.invocation.id)
        &&& match self.phase {
            Phase::AwaitInvocation(id) => state_invocation(self.host.state) != Some(id),
            Phase::Killing(step, then) => {
                &&& self.executor is None
                &&& self.history matches Some(h)
                &&& match step {
                    KillStep::Compress => self.host.state == HostState::Compressing(h.invocation.id),
                    KillStep::Upload => self.host.state == HostState::Uploading(h.invocation.id),
                    _ => runs(self.host.state, h.invocation.id),
                }
                &&& match then {
                    Then::Launch(rec, _) => rec.id != h.invocation.id,
                    Then::Done(y) => y != h.invocation.id,
                    _ => true,
                }
            },
            Phase::AwaitRewind(rec, _) => self.executor is None && state_invocation(self.host.state) != Some(rec.id),
            Phase::AwaitClone(rec, _) => self.executor is None && state_invocation(self.host.state) != Some(rec.id),
            Phase::AwaitFork(rec, _) => self.executor is None && state_invocation(self.host.state) != Some(rec.id),
            _ => true,
        }
    }
}

/// A new agent satisfies the invariant.
pub proof fn lemma_new_client_inv(c: Client)
    requires
        c.executor is None,
        c.phase == Phase::Between,
    ensures
        c.inv(),
{
}

/// Every step keeps the invariant, and the states the host reports stay in
/// order.
pub proof fn lemma_step_keeps_order(c: Client, e: Event, d: Client, a: Action)
    requires
        c.inv(),
        Client::stepped(c, e, d, a),
    ensures
        d.inv(),
        in_order(c.host.state, d.host.state),
{
}

/// What came of a signal sent during a kill does not change what the agent
/// does next.
pub proof fn lemma_signal_outcome_ignored(c: Client, sent: bool, other: bool, d: Client, a: Action)
    requires
        Client::stepped(c, Event::Signalled(sent), d, a),
    ensures
        Client::stepped(c, Event::Signalled(other), d, a),
{
}

/// When the coordinator names the invocation the host is already in, the
/// agent neither kills, clones nor forks: at most it probes the run.
pub proof fn lemma_same_current_keeps_run(c: Client, id: InvocationId, d: Client, a: Action)
    requires
        c.phase is AwaitCurrent,
        state_invocation(c.host.state) == Some(id),
        Client::stepped(c, Event::Current(CurrentReply::Id(id)), d, a),
    ensures
        d.executor == c.executor,
        d.history == c.history,
        d.host == c.host,
        a == Action::Wait || a == (Action::SendSignal { pid: c.executor->Some_0.pid, signal: Signal::Probe }),
{
}

/// Below the retry limit, failing to reach the coordinator only backs off
/// and asks again, keeping the run.
pub proof fn lemma_unreachable_below_limit(c: Client, n: u32, d: Client, a: Action, d2: Client, a2: Action)
    requires
        c.phase == Phase::AwaitCurrent(n),
        n + 1 < RETRY_LIMIT,
        Client::stepped(c, Event::Current(CurrentReply::Unreachable), d, a),
        Client::stepped(d, Event::Slept, d2, a2),
    ensures
        a == (Action::Backoff { retries: n }),
        d2 == (Client { phase: Phase::AwaitCurrent((n + 1) as u32), ..c }),
        a2 == Action::FetchCurrent,
{
}

/// At the retry limit, failing to reach the coordinator kills the run and
/// ends in `Idle`.
pub proof fn lemma_unreachable_at_limit(c: Client, n: u32, d: Client, a: Action)
    requires
        c.phase == Phase::AwaitCurrent(n),
        n + 1 >= RETRY_LIMIT,
        Client::stepped(c, Event::Current(CurrentReply::Unreachable), d, a),
    ensures
        match c.executor {
            Some(x) => a == (Action::SendSignal { pid: x.pid, signal: Signal::Terminate })
                && d.phase == Phase::Killing(KillStep::Terminate, Then::Idle),
            None => d.host.state == HostState::Idle && a == Action::Wait,
        },
{
}

/// When the coordinator switches to another invocation during a run, the
/// agent first kills the run, and then starts the new invocation.
pub proof fn lemma_switch_kills_then_launches(c: Client, id: InvocationId, inv: Invocation, d: Client, a: Action)
    requires
        c.phase == Phase::AwaitInvocation(id),
        c.executor is Some,
        inv.id == id,
        inv.log_of(c.host.hostname@) is None,
        inv.descriptor is Some,
        Client::stepped(c, Event::Invocation(Some(inv)), d, a),
    ensures
        a == (Action::SendSignal { pid: c.executor->Some_0.pid, signal: Signal::Terminate }),
        d.phase matches Phase::Killing(KillStep::Terminate, Then::Launch(rec, _)) && rec.id == id,
{
}

/// A killed run reaches `Done` only after the coordinator accepted its
/// logs, or when it left no log directory.
pub proof fn lemma_done_follows_upload(c: Client, e: Event, d: Client, a: Action)
    requires
        c.inv(),
        c.phase is Killing,
        c.history is Some,
        Client::stepped(c, e, d, a),
        d.host.state == HostState::Done(c.history->Some_0.invocation.id),
    ensures
        e == Event::Uploaded(true) || e == Event::LogsFound(false),
{
}

/// An invocation the host did not run is marked `Done` only when its logs
/// already hold the host's archive.
pub proof fn lemma_done_on_arrival_needs_logs(c: Client, id: InvocationId, e: Event, d: Client, a: Action)
    requires
        c.inv(),
        c.phase == Phase::AwaitInvocation(id),
        Client::stepped(c, e, d, a),
        d.host.state == HostState::Done(id) || (d.phase matches Phase::Killing(_, Then::Done(y)) && y == id),
    ensures
        e matches Event::Invocation(Some(inv)) && inv.log_of(c.host.hostname@) is Some,
{
}

/// A host that already uploaded logs for the current invocation, with no
/// run of its own, is marked `Done` at once: nothing is uploaded, cloned or
/// forked.
pub proof fn lemma_logged_host_is_done(c: Client, id: InvocationId, inv: Invocation, d: Client, a: Action)
    requires
        c.phase == Phase::AwaitInvocation(id),
        c.executor is None,
        inv.id == id,
        inv.log_of(c.host.hostname@) is Some,
        Client::stepped(c, Event::Invocation(Some(inv)), d, a),
    ensures
        a == Action::Wait,
        d.host.state == HostState::Done(id),
        d.executor is None,
        d.history == c.history,
        d.phase == Phase::Between,
{
}

/// An invocation whose manifest could not be parsed is ignored: no kill,
/// clone or fork, and a host with no run keeps its state.
pub proof fn lemma_broken_manifest_ignored(c: Client, id: InvocationId, inv: Invocation, d: Client, a: Action)
    requires
        c.phase == Phase::AwaitInvocation(id),
        c.executor is None,
        inv.id == id,
        inv.log_of(c.host.hostname@) is None,
        inv.descriptor is None,
        Client::stepped(c, Event::Invocation(Some(inv)), d, a),
    ensures
        a == Action::Wait,
        d.host == c.host,
        d.executor is None,
        d.history == c.history,
        d.phase == Phase::Between,
{
}

/// Once the source is in place the run is forked, whatever commands the
/// manifest names; the fork then makes it the supervised run.
pub proof fn lemma_source_in_place_forks(
    c: Client, rec: InvocationRecord, desc: ExperimentDescriptor, d: Client, a: Action,
    pid: i32, d2: Client, a2: Action,
)
    requires
        c.phase == Phase::AwaitClone(rec, desc),
        Client::stepped(c, Event::Cloned(CloneOutcome::Cloned), d, a),
        Client::stepped(d, Event::Forked(Some(pid)), d2, a2),
    ensures
        a == (Action::Fork { descriptor: desc, hostname: c.host.hostname, workspace: c.path }),
        d2.host.state == HostState::Running(rec.id),
        d2.executor == Some(Executor { pid, invocation: rec, log_dir: desc.log_dir }),
        d2.history == c.history,
{
}

} // verus!
