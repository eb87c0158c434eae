//! Hosts as the coordinator records them, and the states a host reports.

use vstd::prelude::*;
use crate::ids::{HostId, InvocationId};
use crate::text::same_text;

verus! {

/// Milliseconds after its last contact at which a host counts as gone.
pub const TIMEOUT_MS: u64 = 5000;

/// What a host is doing. Every state but `Idle` and `Disconnected` names the
/// invocation it concerns.
#[derive(Clone, Copy, Debug, PartialEq, Eq, Structural)]
pub enum HostState {
    /// Registered, and part of no invocation.
    Idle,
    /// Running the invocation.
    Running(InvocationId),
    /// Failed to run the invocation, or to compress or upload its logs.
    Errored(InvocationId),
    /// Compressing the invocation's logs.
    Compressing(InvocationId),
    /// Uploading the invocation's logs.
    Uploading(InvocationId),
    /// Finished with the invocation.
    Done(InvocationId),
    /// Silent for longer than the timeout; cleared by registering again.
    Disconnected,
}

/// The invocation a state names, if any.
pub open spec fn state_invocation(s: HostState) -> Option<InvocationId> {
    match s {
        HostState::Running(id) => Some(id),
        HostState::Errored(id) => Some(id),
        HostState::Compressing(id) => Some(id),
        HostState::Uploading(id) => Some(id),
        HostState::Done(id) => Some(id),
        _ => None,
    }
}

/// The word that names a state's kind in the status paths of the API.
pub open spec fn state_word(s: HostState) -> Seq<char> {
    match s {
        HostState::Idle => "idle"@,
        HostState::Running(_) => "running"@,
        HostState::Errored(_) => "errored"@,
        HostState::Compressing(_) => "compressing"@,
        HostState::Uploading(_) => "uploading"@,
        HostState::Done(_) => "done"@,
        HostState::Disconnected => "disconnected"@,
    }
}

impl HostState {
    /// The invocation this state names, if any.
    pub fn invocation(&self) -> (r: Option<InvocationId>)
        ensures
            r == state_invocation(*self),
    {
        match *self {
            HostState::Running(id) => Some(id),
            HostState::Errored(id) => Some(id),
            HostState::Compressing(id) => Some(id),
            HostState::Uploading(id) => Some(id),
            HostState::Done(id) => Some(id),
            _ => None,
        }
    }

    /// The word that names this state's kind in status paths.
    pub fn word(&self) -> (r: &'static str)
        ensures
            r@ == state_word(*self),
    {
        match *self {
            HostState::Idle => "idle",
            HostState::Running(_) => "running",
            HostState::Errored(_) => "errored",
            HostState::Compressing(_) => "compressing",
            HostState::Uploading(_) => "uploading",
            HostState::Done(_) => "done",
            HostState::Disconnected => "disconnected",
        }
    }

    /// The state whose word is `word` and that names invocation `id`, if
    /// there is one.
    pub fn from_word(word: &str, id: Option<InvocationId>) -> (r: Option<HostState>)
        ensures
            match r {
                Some(s) => state_word(s) == word@ && state_invocation(s) == id,
                None => forall|s: HostState| !(state_word(s) == word@ && state_invocation(s) == id),
            },
    {
        proof {
            reveal_strlit("idle");
            reveal_strlit("running");
            reveal_strlit("errored");
            reveal_strlit("compressing");
            reveal_strlit("uploading");
            reveal_strlit("done");
            reveal_strlit("disconnected");
        }
        match id {
            None => if same_text(word, "idle") {
                Some(HostState::Idle)
            } else if same_text(word, "disconnected") {
                Some(HostState::Disconnected)
            } else {
                None
            },
            Some(i) => if same_text(word, "running") {
                Some(HostState::Running(i))
            } else if same_text(word, "errored") {
                Some(HostState::Errored(i))
            } else if same_text(word, "compressing") {
                Some(HostState::Compressing(i))
            } else if same_text(word, "uploading") {
                Some(HostState::Uploading(i))
            } else if same_text(word, "done") {
                Some(HostState::Done(i))
            } else {
                None
            },
        }
    }

    /// The tag that dashboards see: the five states that name an invocation
    /// all share the tag `running`, and the word tells them apart.
    pub fn tag(&self) -> (r: &'static str)
        ensures
            r@ == (match *self {
                HostState::Idle => "idle"@,
                HostState::Disconnected => "disconnected"@,
                _ => "running"@,
            }),
    {
        match *self {
            HostState::Idle => "idle",
            HostState::Disconnected => "disconnected",
            _ => "running",
        }
    }
}

/// A registered host: its identity, its last reported state and the time of
/// its last contact, in milliseconds of a monotonic clock.
#[derive(Debug)]
pub struct Host {
    pub id: HostId,
    pub hostname: String,
    pub state: HostState,
    pub last_seen: u64,
}

impl Host {
    /// A host just registered under `hostname` at time `now`, with a fresh
    /// random identity.
    pub fn new(hostname: &str, now: u64) -> (r: Host)
        ensures
            r.hostname@ == hostname@,
            r.state == HostState::Idle,
            r.last_seen == now,
    {
        Host::with_id(HostId::random(), hostname, now)
    }

    /// A host just registered under `hostname` at time `now`, with identity
    /// `id`.
    pub fn with_id(id: HostId, hostname: &str, now: u64) -> (r: Host)
        ensures
            r.id == id,
            r.hostname@ == hostname@,
            r.state == HostState::Idle,
            r.last_seen == now,
    {
        Host { id, hostname: hostname.to_string(), state: HostState::Idle, last_seen: now }
    }

    pub fn id(&self) -> (r: HostId)
        ensures
            r == self.id,
    {
        self.id
    }

    /// Records contact at time `now`.
    pub fn refresh(&mut self, now: u64)
        ensures
            *final(self) == (Host { last_seen: now, ..*old(self) }),
    {
        self.last_seen = now;
    }

    pub fn set_state(&mut self, state: HostState)
        ensures
            *final(self) == (Host { state: state, ..*old(self) }),
    {
        self.state = state;
    }

    pub fn state(&self) -> (r: HostState)
        ensures
            r == self.state,
    {
        self.state
    }

    pub fn hostname(&self) -> (r: &str)
        ensures
            r@ == self.hostname@,
    {
        self.hostname.as_str()
    }

    pub fn last_seen(&self) -> (r: u64)
        ensures
            r == self.last_seen,
    {
        self.last_seen
    }

    /// The invocation that the host's state names, if any.
    pub fn current_invocation(&self) -> (r: Option<InvocationId>)
        ensures
            r == state_invocation(self.state),
    {
        self.state.invocation()
    }

    /// Whether at time `now` the host has been silent for longer than the
    /// timeout.
    pub fn expired(&self, now: u64) -> (r: bool)
        ensures
            r == (self.last_seen + TIMEOUT_MS < now),
    {
        now > self.last_seen && now - self.last_seen > TIMEOUT_MS
    }

    /// Whether at time `now` the host has been silent for longer than
    /// `timeout` milliseconds.
    pub fn expired_after(&self, now: u64, timeout: u64) -> (r: bool)
        ensures
            r == (self.last_seen + timeout < now),
    {
        now > self.last_seen && now - self.last_seen > timeout
    }

    /// A copy of the host.
    pub fn duplicate(&self) -> (r: Host)
        ensures
            r == *self,
    {
        Host { id: self.id, hostname: self.hostname.clone(), state: self.state, last_seen: self.last_seen }
    }
}

} // verus!
