//! The coordinator's registry: the hosts, the invocations, and the pointer to
//! the current invocation.

use vstd::prelude::*;
use crate::descriptor::{utc_now_millis, ExperimentDescriptor};
use crate::host::{state_invocation, Host, HostState, TIMEOUT_MS};
use crate::ids::{fresh_uuid, uuid_string, uuid_text_of, HostId, InvocationId};
use crate::invocation::{Invocation, InvocationRecord};
use crate::text::{copy_str, join, join_path, same_text};
use vstd::string::StringExecFns;
use vstd::set_lib::{lemma_int_range, lemma_len_subset, set_int_range};

verus! {

/// Why a registry operation failed.
#[derive(Clone, Copy, Debug, PartialEq, Eq, Structural)]
pub enum InstanceErrorKind {
    /// The given hostname was already registered.
    HostRegistered,
    /// The repository supplied had a manifest that could not be parsed.
    BrokenManifest,
    /// There is no repository cloned.
    NothingCloned,
    /// There was a failure while attempting to clone the repository.
    CloningFailed,
    /// The cloned repository has commits missing.
    MissingCommits,
    /// The supplied invocation or host id was invalid.
    InvalidId,
}

/// A failed registry operation: its kind, and the message of what caused it.
#[derive(Debug)]
pub struct InstanceError {
    pub kind: InstanceErrorKind,
    pub cause: Option<String>,
}

/// The sentence that describes an error kind.
pub open spec fn instance_error_text(k: InstanceErrorKind) -> Seq<char> {
    match k {
        InstanceErrorKind::HostRegistered => "the given hostname was already registered"@,
        InstanceErrorKind::BrokenManifest => "the repository supplied had a manifest that could not be parsed"@,
        InstanceErrorKind::NothingCloned => "there is no repository cloned"@,
        InstanceErrorKind::CloningFailed => "there was a failure while attempting to clone the repository"@,
        InstanceErrorKind::MissingCommits => "the cloned repository has commits missing"@,
        InstanceErrorKind::InvalidId => "the supplied invocation or host ID was invalid"@,
    }
}

impl InstanceErrorKind {
    /// The sentence that describes the kind.
    pub fn describe(&self) -> (r: &'static str)
        ensures
            r@ == instance_error_text(*self),
    {
        match *self {
            InstanceErrorKind::HostRegistered => "the given hostname was already registered",
            InstanceErrorKind::BrokenManifest => "the repository supplied had a manifest that could not be parsed",
            InstanceErrorKind::NothingCloned => "there is no repository cloned",
            InstanceErrorKind::CloningFailed => "there was a failure while attempting to clone the repository",
            InstanceErrorKind::MissingCommits => "the cloned repository has commits missing",
            InstanceErrorKind::InvalidId => "the supplied invocation or host ID was invalid",
        }
    }
}

impl InstanceError {
    /// An error of `kind` with no recorded cause.
    pub fn from_kind(kind: InstanceErrorKind) -> (r: InstanceError)
        ensures
            r.kind == kind,
            r.cause is None,
    {
        InstanceError { kind, cause: None }
    }

    /// The message that the API reports for this error.
    pub fn to_string(&self) -> (r: String)
        ensures
            r@ == instance_error_text(self.kind),
    {
        String::from_str(self.kind.describe())
    }
}

/// Where an archive uploaded under the name `key` is stored: in `log_dir`,
/// named by the UUID `key` and never by anything the client sent.
pub open spec fn upload_path_spec(log_dir: Seq<char>, key: u128) -> Seq<char> {
    join_path(log_dir, uuid_text_of(key) + ".tar.gz"@)
}

/// Builds `upload_path_spec(log_dir, key)`.
pub fn upload_path(log_dir: &str, key: u128) -> (r: String)
    ensures
        r@ == upload_path_spec(log_dir@, key),
{
    let mut name = uuid_string(key);
    name.append(".tar.gz");
    join(log_dir, name.as_str())
}

/// A path in `log_dir` for a newly uploaded archive, under a fresh random
/// UUID.
pub fn fresh_upload_path(log_dir: &str) -> (r: String)
    ensures
        exists|key: u128| r@ == upload_path_spec(log_dir@, key),
{
    upload_path(log_dir, fresh_uuid())
}

/// The source that the coordinator fetched for a new invocation: the commit
/// that `HEAD` resolved to, and the manifest as parsed or the parser's
/// message.
#[derive(Debug)]
pub struct Checkout {
    pub commit: String,
    pub manifest: Result<ExperimentDescriptor, String>,
}

/// The coordinator's state. `path` is the workspace where sources are
/// cloned; a host silent for longer than `timeout_ms` is marked
/// disconnected.
#[derive(Debug)]
pub struct Instance {
    pub hosts: Vec<Host>,
    pub invocations: Vec<Invocation>,
    pub current: Option<InvocationId>,
    pub path: String,
    pub timeout_ms: u64,
}

pub open spec fn has_host_in(hosts: Seq<Host>, id: HostId) -> bool {
    exists|i: int| 0 <= i < hosts.len() && hosts[i].id == id
}

pub open spec fn host_pos(hosts: Seq<Host>, id: HostId) -> int {
    choose|i: int| 0 <= i < hosts.len() && hosts[i].id == id
}

pub open spec fn has_name_in(hosts: Seq<Host>, name: Seq<char>) -> bool {
    exists|i: int| 0 <= i < hosts.len() && hosts[i].hostname@ == name
}

pub open spec fn name_pos(hosts: Seq<Host>, name: Seq<char>) -> int {
    choose|i: int| 0 <= i < hosts.len() && hosts[i].hostname@ == name
}

pub open spec fn has_inv_in(invs: Seq<Invocation>, id: InvocationId) -> bool {
    exists|i: int| 0 <= i < invs.len() && invs[i].id == id
}

pub open spec fn inv_pos(invs: Seq<Invocation>, id: InvocationId) -> int {
    choose|i: int| 0 <= i < invs.len() && invs[i].id == id
}

/// The least value that no host has as its identity.
pub open spec fn is_least_free_host(hosts: Seq<Host>, v: u128) -> bool {
    &&& !has_host_in(hosts, HostId(v))
    &&& forall|w: u128| w < v ==> has_host_in(hosts, HostId(w))
}

/// The identity a new host gets: `candidate` when it is free, else the least
/// free value.
pub open spec fn pick_host_id(hosts: Seq<Host>, candidate: HostId) -> HostId {
    if !has_host_in(hosts, candidate) {
        candidate
    } else {
        HostId(choose|v: u128| is_least_free_host(hosts, v))
    }
}

/// The least value that no invocation has as its identity.
pub open spec fn is_least_free_inv(invs: Seq<Invocation>, v: u128) -> bool {
    &&& !has_inv_in(invs, InvocationId(v))
    &&& forall|w: u128| w < v ==> has_inv_in(invs, InvocationId(w))
}

/// The identity a new invocation gets: `candidate` when it is free, else the
/// least free value.
pub open spec fn pick_inv_id(invs: Seq<Invocation>, candidate: InvocationId) -> InvocationId {
    if !has_inv_in(invs, candidate) {
        candidate
    } else {
        InvocationId(choose|v: u128| is_least_free_inv(invs, v))
    }
}

/// Among the `keys.len() + 1` values `0..=keys.len()`, one is not a key.
proof fn lemma_free_key(keys: Seq<int>)
    ensures
        exists|v: int| 0 <= v <= keys.len() && !keys.contains(v),
{
    if forall|v: int| 0 <= v <= keys.len() ==> keys.contains(v) {
        let range = set_int_range(0, keys.len() + 1 as int);
        lemma_int_range(0, keys.len() + 1 as int);
        keys.lemma_cardinality_of_set();
        assert(range.subset_of(keys.to_set())) by {
            assert forall|v: int| range.contains(v) implies keys.to_set().contains(v) by {
                assert(keys.contains(v));
            }
        }
        lemma_len_subset(range, keys.to_set());
    }
}

/// `host` refreshed at `now` and set to `state`.
pub open spec fn touched(host: Host, state: HostState, now: u64) -> Host {
    Host { state: state, last_seen: now, ..host }
}

impl Instance {
    pub open spec fn has_host(&self, id: HostId) -> bool {
        has_host_in(self.hosts@, id)
    }

    /// The host registered as `id`; meaningful where `has_host(id)`.
    pub open spec fn host_of(&self, id: HostId) -> Host {
        self.hosts@[host_pos(self.hosts@, id)]
    }

    pub open spec fn has_name(&self, name: Seq<char>) -> bool {
        has_name_in(self.hosts@, name)
    }

    pub open spec fn has_invocation(&self, id: InvocationId) -> bool {
        has_inv_in(self.invocations@, id)
    }

    /// The invocation `id`; meaningful where `has_invocation(id)`.
    pub open spec fn invocation_of(&self, id: InvocationId) -> Invocation {
        self.invocations@[inv_pos(self.invocations@, id)]
    }

    /// Whether a host state names only invocations that exist.
    pub open spec fn known_state(&self, s: HostState) -> bool {
        state_invocation(s) matches Some(id) ==> self.has_invocation(id)
    }

    /// The registry's invariant: identities and hostnames are unique, and
    /// neither `current` nor any host's state names an unknown invocation.
    pub open spec fn wf(&self) -> bool {
        &&& forall|i: int, j: int|
            0 <= i < self.hosts@.len() && 0 <= j < self.hosts@.len() && i != j ==> {
                &&& self.hosts@[i].id != self.hosts@[j].id
                &&& self.hosts@[i].hostname@ != self.hosts@[j].hostname@
            }
        &&& forall|i: int, j: int|
            0 <= i < self.invocations@.len() && 0 <= j < self.invocations@.len() && i != j
                ==> self.invocations@[i].id != self.invocations@[j].id
        &&& forall|i: int| 0 <= i < self.invocations@.len() ==> (#[trigger] self.invocations@[i]).wf()
        &&& self.current matches Some(id) ==> self.has_invocation(id)
        &&& forall|i: int| 0 <= i < self.hosts@.len() ==> self.known_state((#[trigger] self.hosts@[i]).state)
    }

    /// What `register_with(hostname, candidate, now)` does, from `s` to `t`
    /// with result `r`.
    pub open spec fn registered(s: Instance, hostname: Seq<char>, candidate: HostId, now: u64, t: Instance, r: Result<HostId, InstanceError>) -> bool {
        &&& t.invocations == s.invocations
        &&& t.current == s.current
        &&& t.path == s.path
        &&& t.timeout_ms == s.timeout_ms
        &&& if s.has_name(hostname) {
            let i = name_pos(s.hosts@, hostname);
            &&& r == Ok::<HostId, InstanceError>(s.hosts@[i].id)
            &&& t.hosts@ == s.hosts@.update(i, touched(s.hosts@[i], HostState::Idle, now))
        } else {
            let h = t.hosts@.last();
            let id = pick_host_id(s.hosts@, candidate);
            &&& !has_host_in(s.hosts@, id)
            &&& r == Ok::<HostId, InstanceError>(id)
            &&& t.hosts@ == s.hosts@.push(h)
            &&& h.id == id
            &&& h.hostname@ == hostname
            &&& h.state == HostState::Idle
            &&& h.last_seen == now
        }
    }

    /// What building invocation `id` of `url` at `commit` started at `start`
    /// does, from `s` to `t` with result `r`.
    pub open spec fn built(s: Instance, url: Seq<char>, commit: Seq<char>, manifest: Result<ExperimentDescriptor, String>, id: InvocationId, start: i64, t: Instance, r: Result<InvocationId, InstanceError>) -> bool {
        &&& t.hosts == s.hosts
        &&& t.path == s.path
        &&& t.timeout_ms == s.timeout_ms
        &&& {
            let inv = t.invocations@.last();
            let id2 = pick_inv_id(s.invocations@, id);
            &&& !has_inv_in(s.invocations@, id2)
            &&& t.invocations@ == s.invocations@.push(inv)
            &&& inv.id == id2
            &&& inv.url@ == url
            &&& inv.commit@ == commit
            &&& inv.start == start
            &&& inv.logs@.len() == 0
            &&& t.current == Some(id2)
            &&& match manifest {
                Ok(d) => inv.descriptor == Some(d) && r == Ok::<InvocationId, InstanceError>(id2),
                Err(m) => inv.descriptor is None
                    && r == Err::<InvocationId, InstanceError>(InstanceError { kind: InstanceErrorKind::BrokenManifest, cause: Some(m) }),
            }
        }
    }

    /// What `invoke_with(url, fetched, id, start)` does.
    pub open spec fn invoked(s: Instance, url: Seq<char>, fetched: Result<Checkout, InstanceError>, id: InvocationId, start: i64, t: Instance, r: Result<InvocationId, InstanceError>) -> bool {
        match fetched {
            Err(e) => r == Err::<InvocationId, InstanceError>(e) && t == s,
            Ok(c) => Self::built(s, url, c.commit@, c.manifest, id, start, t, r),
        }
    }

    /// What `reinvoke_with(previous, fetched, id, start)` does.
    pub open spec fn reinvoked(s: Instance, previous: InvocationId, fetched: Result<Result<ExperimentDescriptor, String>, InstanceError>, id: InvocationId, start: i64, t: Instance, r: Result<InvocationId, InstanceError>) -> bool {
        if !s.has_invocation(previous) {
            &&& r matches Err(e) && e.kind == InstanceErrorKind::InvalidId
            &&& t == s
        } else {
            match fetched {
                Err(e) => r == Err::<InvocationId, InstanceError>(e) && t == s,
                Ok(m) => Self::built(s, s.invocation_of(previous).url@, s.invocation_of(previous).commit@, m, id, start, t, r),
            }
        }
    }

    /// What `add_log(inv, host, path)` does.
    pub open spec fn logged(s: Instance, inv: InvocationId, host: HostId, path: Seq<char>, t: Instance, r: Result<(), InstanceError>) -> bool {
        &&& t.hosts == s.hosts
        &&& t.current == s.current
        &&& t.path == s.path
        &&& t.timeout_ms == s.timeout_ms
        &&& if s.has_invocation(inv) && s.has_host(host) {
            let k = inv_pos(s.invocations@, inv);
            let name = s.host_of(host).hostname@;
            &&& r is Ok
            &&& t.invocations@.len() == s.invocations@.len()
            &&& forall|j: int| 0 <= j < s.invocations@.len() && j != k ==> t.invocations@[j] == s.invocations@[j]
            &&& t.invocations@[k].id == inv
            &&& t.invocations@[k].url == s.invocations@[k].url
            &&& t.invocations@[k].commit == s.invocations@[k].commit
            &&& t.invocations@[k].descriptor == s.invocations@[k].descriptor
            &&& t.invocations@[k].log_of(name) == Some(path)
            &&& forall|h: Seq<char>| h != name ==> #[trigger] t.invocations@[k].log_of(h) == s.invocations@[k].log_of(h)
        } else {
            &&& r matches Err(e) && e.kind == InstanceErrorKind::InvalidId
            &&& t.invocations == s.invocations
        }
    }

    /// An empty registry whose sources are cloned into `path`, with the
    /// default liveness timeout.
    pub fn new(path: &str) -> (r: Instance)
        ensures
            r.wf(),
            r.hosts@.len() == 0,
            r.invocations@.len() == 0,
            r.current is None,
            r.path@ == path@,
            r.timeout_ms == TIMEOUT_MS,
    {
        Instance::with_timeout(path, TIMEOUT_MS)
    }

    /// An empty registry whose sources are cloned into `path`, and whose
    /// hosts time out after `timeout_ms`.
    pub fn with_timeout(path: &str, timeout_ms: u64) -> (r: Instance)
        ensures
            r.wf(),
            r.hosts@.len() == 0,
            r.invocations@.len() == 0,
            r.current is None,
            r.path@ == path@,
            r.timeout_ms == timeout_ms,
    {
        Instance { hosts: Vec::new(), invocations: Vec::new(), current: None, path: String::from_str(path), timeout_ms }
    }

    fn find_host(&self, id: HostId) -> (r: Option<usize>)
        requires
            self.wf(),
        ensures
            match r {
                Some(i) => self.has_host(id) && i == host_pos(self.hosts@, id),
                None => !self.has_host(id),
            },
    {
        let mut i: usize = 0;
        while i < self.hosts.len()
            invariant
                self.wf(),
                i <= self.hosts@.len(),
                forall|j: int| 0 <= j < i ==> self.hosts@[j].id != id,
            decreases self.hosts@.len() - i,
        {
            if self.hosts[i].id == id {
                proof {
                    let p = host_pos(self.hosts@, id);
                    assert(0 <= p < self.hosts@.len() && self.hosts@[p].id == id);
                    if p != i as int {
                        assert(self.hosts@[p].id != self.hosts@[i as int].id);
                    }
                }
                return Some(i);
            }
            i += 1;
        }
        None
    }

    fn find_name(&self, name: &str) -> (r: Option<usize>)
        requires
            self.wf(),
        ensures
            match r {
                Some(i) => self.has_name(name@) && i == name_pos(self.hosts@, name@),
                None => !self.has_name(name@),
            },
    {
        let mut i: usize = 0;
        while i < self.hosts.len()
            invariant
                self.wf(),
                i <= self.hosts@.len(),
                forall|j: int| 0 <= j < i ==> self.hosts@[j].hostname@ != name@,
            decreases self.hosts@.len() - i,
        {
            if same_text(self.hosts[i].hostname.as_str(), name) {
                proof {
                    let p = name_pos(self.hosts@, name@);
                    assert(0 <= p < self.hosts@.len() && self.hosts@[p].hostname@ == name@);
                    if p != i as int {
                        assert(self.hosts@[p].hostname@ != self.hosts@[i as int].hostname@);
                    }
                }
                return Some(i);
            }
            i += 1;
        }
        None
    }

    fn find_invocation(&self, id: InvocationId) -> (r: Option<usize>)
        requires
            self.wf(),
        ensures
            match r {
                Some(i) => self.has_invocation(id) && i == inv_pos(self.invocations@, id),
                None => !self.has_invocation(id),
            },
    {
        let mut i: usize = 0;
        while i < self.invocations.len()
            invariant
                self.wf(),
                i <= self.invocations@.len(),
                forall|j: int| 0 <= j < i ==> self.invocations@[j].id != id,
            decreases self.invocations@.len() - i,
        {
            if self.invocations[i].id == id {
                proof {
                    let p = inv_pos(self.invocations@, id);
                    assert(0 <= p < self.invocations@.len() && self.invocations@[p].id == id);
                    if p != i as int {
                        assert(self.invocations@[p].id != self.invocations@[i as int].id);
                    }
                }
                return Some(i);
            }
            i += 1;
        }
        None
    }

    /// The least value that no host has as its identity.
    fn least_free_host(&self) -> (r: HostId)
        requires
            self.wf(),
        ensures
            is_least_free_host(self.hosts@, r.0),
            r == HostId(choose|v: u128| is_least_free_host(self.hosts@, v)),
    {
        let ghost keys = self.hosts@.map_values(|h: Host| h.id.0 as int);
        proof {
            lemma_free_key(keys);
        }
        let ghost f = choose|f: int| 0 <= f <= keys.len() && !keys.contains(f);
        proof {
            assert forall|i: int| 0 <= i < self.hosts@.len() implies self.hosts@[i].id.0 != f by {
                assert(keys[i] == self.hosts@[i].id.0 as int);
            }
        }
        let n: usize = self.hosts.len();
        let mut v: u128 = 0;
        let mut taken = self.find_host(HostId(v)).is_some();
        while taken
            invariant
                self.wf(),
                self.hosts@.len() == n,
                0 <= f <= self.hosts@.len(),
                forall|i: int| 0 <= i < self.hosts@.len() ==> self.hosts@[i].id.0 != f,
                v <= f,
                taken == has_host_in(self.hosts@, HostId(v)),
                forall|w: u128| w < v ==> has_host_in(self.hosts@, HostId(w)),
            decreases f - v,
        {
            assert(v != f);
            v = v + 1;
            taken = self.find_host(HostId(v)).is_some();
        }
        proof {
            assert(is_least_free_host(self.hosts@, v));
            let c = choose|u: u128| is_least_free_host(self.hosts@, u);
            if c < v {
            } else if v < c {
            }
        }
        HostId(v)
    }

    /// The least value that no invocation has as its identity.
    fn least_free_invocation(&self) -> (r: InvocationId)
        requires
            self.wf(),
        ensures
            is_least_free_inv(self.invocations@, r.0),
            r == InvocationId(choose|v: u128| is_least_free_inv(self.invocations@, v)),
    {
        let ghost keys = self.invocations@.map_values(|inv: Invocation| inv.id.0 as int);
        proof {
            lemma_free_key(keys);
        }
        let ghost f = choose|f: int| 0 <= f <= keys.len() && !keys.contains(f);
        proof {
            assert forall|i: int| 0 <= i < self.invocations@.len() implies self.invocations@[i].id.0 != f by {
                assert(keys[i] == self.invocations@[i].id.0 as int);
            }
        }
        let n: usize = self.invocations.len();
        let mut v: u128 = 0;
        let mut taken = self.find_invocation(InvocationId(v)).is_some();
        while taken
            invariant
                self.wf(),
                self.invocations@.len() == n,
                0 <= f <= self.invocations@.len(),
                forall|i: int| 0 <= i < self.invocations@.len() ==> self.invocations@[i].id.0 != f,
                v <= f,
                taken == has_inv_in(self.invocations@, InvocationId(v)),
                forall|w: u128| w < v ==> has_inv_in(self.invocations@, InvocationId(w)),
            decreases f - v,
        {
            assert(v != f);
            v = v + 1;
            taken = self.find_invocation(InvocationId(v)).is_some();
        }
        proof {
            assert(is_least_free_inv(self.invocations@, v));
            let c = choose|u: u128| is_least_free_inv(self.invocations@, u);
            if c < v {
            } else if v < c {
            }
        }
        InvocationId(v)
    }

    /// The host registered as `id`.
    pub fn host(&self, id: HostId) -> (r: Option<&Host>)
        requires
            self.wf(),
        ensures
            match r {
                Some(h) => self.has_host(id) && *h == self.host_of(id),
                None => !self.has_host(id),
            },
    {
        match self.find_host(id) {
            Some(i) => Some(&self.hosts[i]),
            None => None,
        }
    }

    /// All registered hosts.
    pub fn hosts(&self) -> (r: &Vec<Host>)
        ensures
            r@ == self.hosts@,
    {
        &self.hosts
    }

    /// The invocation `id`.
    pub fn invocation(&self, id: InvocationId) -> (r: Option<&Invocation>)
        requires
            self.wf(),
        ensures
            match r {
                Some(inv) => self.has_invocation(id) && *inv == self.invocation_of(id),
                None => !self.has_invocation(id),
            },
    {
        match self.find_invocation(id) {
            Some(i) => Some(&self.invocations[i]),
            None => None,
        }
    }

    /// The summaries of all invocations, in the order they were made.
    pub fn invocations(&self) -> (r: Vec<InvocationRecord>)
        ensures
            r@.len() == self.invocations@.len(),
            forall|i: int| 0 <= i < r@.len() ==> #[trigger] r@[i] == self.invocations@[i].record_spec(),
    {
        let mut r: Vec<InvocationRecord> = Vec::new();
        let mut i: usize = 0;
        while i < self.invocations.len()
            invariant
                i <= self.invocations@.len(),
                r@.len() == i,
                forall|j: int| 0 <= j < i ==> #[trigger] r@[j] == self.invocations@[j].record_spec(),
            decreases self.invocations@.len() - i,
        {
            r.push(self.invocations[i].record());
            i += 1;
        }
        r
    }

    /// The invocation that hosts should be running, if any.
    pub fn current_invocation(&self) -> (r: Option<InvocationId>)
        ensures
            r == self.current,
    {
        self.current
    }

    /// The url and commit of invocation `id`, for fetching it again.
    pub fn source_of(&self, id: InvocationId) -> (r: Option<(String, String)>)
        requires
            self.wf(),
        ensures
            match r {
                Some((u, c)) => self.has_invocation(id) && u@ == self.invocation_of(id).url@
                    && c@ == self.invocation_of(id).commit@,
                None => !self.has_invocation(id),
            },
    {
        match self.find_invocation(id) {
            Some(i) => Some((copy_str(&self.invocations[i].url), copy_str(&self.invocations[i].commit))),
            None => None,
        }
    }

    /// Registers `hostname` at time `now`. A hostname seen before keeps its
    /// identity and is refreshed and set `Idle`; a new one gets a fresh random
    /// identity (the least free value, in the unlikely case that the one
    /// drawn is taken). It never fails.
    pub fn register(&mut self, hostname: &str, now: u64) -> (r: Result<HostId, InstanceError>)
        requires
            old(self).wf(),
        ensures
            final(self).wf(),
            r is Ok,
            exists|c: HostId| Self::registered(*old(self), hostname@, c, now, *final(self), r),
    {
        let candidate = HostId::random();
        self.register_with(hostname, candidate, now)
    }

    /// Registers `hostname` at time `now`, with `candidate` as the identity
    /// of a hostname not seen before, or the least free value when
    /// `candidate` is taken.
    pub fn register_with(&mut self, hostname: &str, candidate: HostId, now: u64) -> (r: Result<HostId, InstanceError>)
        requires
            old(self).wf(),
        ensures
            final(self).wf(),
            Self::registered(*old(self), hostname@, candidate, now, *final(self), r),
    {
        match self.find_name(hostname) {
            Some(i) => {
                let mut h = self.hosts[i].duplicate();
                h.refresh(now);
                h.set_state(HostState::Idle);
                let id = h.id;
                self.hosts.set(i, h);
                Ok(id)
            },
            None => {
                let id = if self.find_host(candidate).is_some() {
                    self.least_free_host()
                } else {
                    candidate
                };
                let h = Host::with_id(id, hostname, now);
                self.hosts.push(h);
                Ok(id)
            },
        }
    }

    /// A status report from host `id` at time `now`: the host is refreshed
    /// and takes `state`. Fails with `InvalidId`, changing nothing, when the
    /// host is unknown or `state` names an unknown invocation.
    pub fn set_state(&mut self, id: HostId, state: HostState, now: u64) -> (r: Result<(), InstanceError>)
        requires
            old(self).wf(),
        ensures
            final(self).wf(),
            final(self).invocations == old(self).invocations,
            final(self).current == old(self).current,
            final(self).path == old(self).path,
            final(self).timeout_ms == old(self).timeout_ms,
            if old(self).has_host(id) && old(self).known_state(state) {
                let i = host_pos(old(self).hosts@, id);
                &&& r is Ok
                &&& final(self).hosts@ == old(self).hosts@.update(i, touched(old(self).hosts@[i], state, now))
            } else {
                &&& r matches Err(e) && e.kind == InstanceErrorKind::InvalidId
                &&& final(self).hosts == old(self).hosts
            },
    {
        let known = match state.invocation() {
            Some(inv) => self.find_invocation(inv).is_some(),
            None => true,
        };
        if !known {
            return Err(InstanceError::from_kind(InstanceErrorKind::InvalidId));
        }
        match self.find_host(id) {
            Some(i) => {
                let mut h = self.hosts[i].duplicate();
                h.refresh(now);
                h.set_state(state);
                self.hosts.set(i, h);
                Ok(())
            },
            None => Err(InstanceError::from_kind(InstanceErrorKind::InvalidId)),
        }
    }

    /// Marks `Disconnected` every host silent for longer than `timeout_ms`
    /// at time `now`. Hosts are never removed.
    pub fn reap(&mut self, now: u64)
        requires
            old(self).wf(),
        ensures
            final(self).wf(),
            final(self).invocations == old(self).invocations,
            final(self).current == old(self).current,
            final(self).path == old(self).path,
            final(self).timeout_ms == old(self).timeout_ms,
            final(self).hosts@.len() == old(self).hosts@.len(),
            forall|i: int| 0 <= i < old(self).hosts@.len() ==> #[trigger] final(self).hosts@[i] == if old(self).hosts@[i].last_seen + old(self).timeout_ms < now {
                Host { state: HostState::Disconnected, ..old(self).hosts@[i] }
            } else {
                old(self).hosts@[i]
            },
    {
        let mut i: usize = 0;
        while i < self.hosts.len()
            invariant
                i <= self.hosts@.len(),
                self.hosts@.len() == old(self).hosts@.len(),
                self.invocations == old(self).invocations,
                self.current == old(self).current,
                self.path == old(self).path,
                self.timeout_ms == old(self).timeout_ms,
                old(self).wf(),
                forall|j: int| 0 <= j < self.hosts@.len() ==> #[trigger] self.hosts@[j] == if j < i && old(self).hosts@[j].last_seen + old(self).timeout_ms < now {
                    Host { state: HostState::Disconnected, ..old(self).hosts@[j] }
                } else {
                    old(self).hosts@[j]
                },
            decreases self.hosts@.len() - i,
        {
            if self.hosts[i].expired_after(now, self.timeout_ms) {
                let mut h = self.hosts[i].duplicate();
                h.set_state(HostState::Disconnected);
                self.hosts.set(i, h);
            }
            i += 1;
        }
    }

    fn build_invocation(&mut self, url: &str, commit: &str, manifest: Result<ExperimentDescriptor, String>, id: InvocationId, start: i64) -> (r: Result<InvocationId, InstanceError>)
        requires
            old(self).wf(),
        ensures
            final(self).wf(),
            Self::built(*old(self), url@, commit@, manifest, id, start, *final(self), r),
    {
        let id = if self.find_invocation(id).is_some() {
            self.least_free_invocation()
        } else {
            id
        };
        let (inv, err) = Invocation::with_id(id, url, commit, manifest, start);
        self.invocations.push(inv);
        self.current = Some(id);
        proof {
            let s = *old(self);
            assert(has_inv_in(self.invocations@, id)) by {
                assert(self.invocations@[self.invocations@.len() - 1].id == id);
            }
            assert forall|x: InvocationId| s.has_invocation(x) implies self.has_invocation(x) by {
                let j = choose|j: int| 0 <= j < s.invocations@.len() && s.invocations@[j].id == x;
                assert(self.invocations@[j].id == x);
            }
            assert forall|i: int| 0 <= i < self.hosts@.len() implies self.known_state((#[trigger] self.hosts@[i]).state) by {
                assert(s.known_state(s.hosts@[i].state));
            }
        }
        match err {
            Some(m) => Err(InstanceError { kind: InstanceErrorKind::BrokenManifest, cause: Some(m) }),
            None => Ok(id),
        }
    }

    /// Starts a new invocation of `url` from the source fetched for it, with
    /// a fresh random identity, started now.
    pub fn invoke(&mut self, url: &str, fetched: Result<Checkout, InstanceError>) -> (r: Result<InvocationId, InstanceError>)
        requires
            old(self).wf(),
        ensures
            final(self).wf(),
            exists|id: InvocationId, start: i64| Self::invoked(*old(self), url@, fetched, id, start, *final(self), r),
    {
        let id = InvocationId::random();
        let start = utc_now_millis();
        self.invoke_with(url, fetched, id, start)
    }

    /// Starts invocation `id` of `url` at `start` from the source fetched for
    /// it; the least free identity stands in for `id` when `id` is taken. A
    /// failed fetch changes nothing and its error is returned. Else the
    /// invocation is stored and made current; when its manifest could not be
    /// parsed, the result is a `BrokenManifest` error that carries the
    /// parser's message.
    pub fn invoke_with(&mut self, url: &str, fetched: Result<Checkout, InstanceError>, id: InvocationId, start: i64) -> (r: Result<InvocationId, InstanceError>)
        requires
            old(self).wf(),
        ensures
            final(self).wf(),
            Self::invoked(*old(self), url@, fetched, id, start, *final(self), r),
    {
        match fetched {
            Err(e) => Err(e),
            Ok(c) => self.build_invocation(url, c.commit.as_str(), c.manifest, id, start),
        }
    }

    /// Starts a new invocation with the url and commit of invocation
    /// `previous`, from the manifest fetched again, with a fresh random
    /// identity, started now.
    pub fn reinvoke(&mut self, previous: InvocationId, fetched: Result<Result<ExperimentDescriptor, String>, InstanceError>) -> (r: Result<InvocationId, InstanceError>)
        requires
            old(self).wf(),
        ensures
            final(self).wf(),
            exists|id: InvocationId, start: i64| Self::reinvoked(*old(self), previous, fetched, id, start, *final(self), r),
    {
        let id = InvocationId::random();
        let start = utc_now_millis();
        self.reinvoke_with(previous, fetched, id, start)
    }

    /// Starts invocation `id` at `start` (or the least free identity when
    /// `id` is taken) with the url and commit of invocation `previous`. Fails
    /// with `InvalidId` when `previous` is unknown.
    pub fn reinvoke_with(&mut self, previous: InvocationId, fetched: Result<Result<ExperimentDescriptor, String>, InstanceError>, id: InvocationId, start: i64) -> (r: Result<InvocationId, InstanceError>)
        requires
            old(self).wf(),
        ensures
            final(self).wf(),
            Self::reinvoked(*old(self), previous, fetched, id, start, *final(self), r),
    {
        let (url, commit) = match self.source_of(previous) {
            Some(src) => src,
            None => return Err(InstanceError::from_kind(InstanceErrorKind::InvalidId)),
        };
        match fetched {
            Err(e) => Err(e),
            Ok(m) => self.build_invocation(url.as_str(), commit.as_str(), m, id, start),
        }
    }

    /// Clears the current invocation; every invocation stays recorded.
    pub fn cancel(&mut self)
        requires
            old(self).wf(),
        ensures
            final(self).wf(),
            final(self).current is None,
            final(self).hosts == old(self).hosts,
            final(self).invocations == old(self).invocations,
            final(self).path == old(self).path,
            final(self).timeout_ms == old(self).timeout_ms,
    {
        self.current = None;
    }

    /// Binds the archive at `path`, uploaded by host `host`, to invocation
    /// `inv`. Fails with `InvalidId` when either is unknown.
    pub fn add_log(&mut self, inv: InvocationId, host: HostId, path: &str) -> (r: Result<(), InstanceError>)
        requires
            old(self).wf(),
        ensures
            final(self).wf(),
            Self::logged(*old(self), inv, host, path@, *final(self), r),
    {
        let k = match self.find_invocation(inv) {
            Some(k) => k,
            None => return Err(InstanceError::from_kind(InstanceErrorKind::InvalidId)),
        };
        let j = match self.find_host(host) {
            Some(j) => j,
            None => return Err(InstanceError::from_kind(InstanceErrorKind::InvalidId)),
        };
        let ghost s = *old(self);
        let mut invocation = self.invocations.remove(k);
        invocation.add_log(&self.hosts[j], path);
        self.invocations.insert(k, invocation);
        proof {
            assert(self.invocations@ == s.invocations@.update(k as int, invocation));
            assert forall|x: InvocationId| s.has_invocation(x) implies self.has_invocation(x) by {
                let p = choose|p: int| 0 <= p < s.invocations@.len() && s.invocations@[p].id == x;
                assert(self.invocations@[p].id == x);
            }
            assert forall|i: int| 0 <= i < self.hosts@.len() implies self.known_state((#[trigger] self.hosts@[i]).state) by {
                assert(s.known_state(s.hosts@[i].state));
            }
        }
        Ok(())
    }
}

/// No host's state names an invocation that the registry does not hold.
pub proof fn lemma_no_dangling_state(s: Instance, i: int)
    requires
        s.wf(),
        0 <= i < s.hosts@.len(),
    ensures
        state_invocation(s.hosts@[i].state) matches Some(id) ==> s.has_invocation(id),
{
    assert(s.known_state(s.hosts@[i].state));
}

/// The current invocation, when set, is one that the registry holds.
pub proof fn lemma_current_is_known(s: Instance)
    requires
        s.wf(),
    ensures
        s.current matches Some(id) ==> s.has_invocation(id),
{
}

/// Registering the same hostname twice gives the same identity both times.
pub proof fn lemma_register_keeps_identity(
    s0: Instance, s1: Instance, s2: Instance, hostname: Seq<char>,
    c1: HostId, c2: HostId, now1: u64, now2: u64,
    r1: Result<HostId, InstanceError>, r2: Result<HostId, InstanceError>,
)
    requires
        s0.wf(),
        s1.wf(),
        Instance::registered(s0, hostname, c1, now1, s1, r1),
        Instance::registered(s1, hostname, c2, now2, s2, r2),
        r1 is Ok,
    ensures
        r2 == r1,
{
    let id = r1->Ok_0;
    let k = if s0.has_name(hostname) { name_pos(s0.hosts@, hostname) } else { s0.hosts@.len() as int };
    assert(s1.hosts@[k].hostname@ == hostname && s1.hosts@[k].id == id);
    assert(s1.has_name(hostname));
    let p = name_pos(s1.hosts@, hostname);
    if p != k {
        assert(s1.hosts@[p].hostname@ != s1.hosts@[k].hostname@);
    }
}

/// Registering a hostname again refreshes its host to the new time and sets
/// it `Idle`.
pub proof fn lemma_register_again_refreshes(
    s0: Instance, s1: Instance, s2: Instance, hostname: Seq<char>,
    c1: HostId, c2: HostId, now1: u64, now2: u64,
    r1: Result<HostId, InstanceError>, r2: Result<HostId, InstanceError>,
)
    requires
        s0.wf(),
        s1.wf(),
        Instance::registered(s0, hostname, c1, now1, s1, r1),
        Instance::registered(s1, hostname, c2, now2, s2, r2),
        r1 is Ok,
    ensures
        r2 == r1,
        s2.has_host(r1->Ok_0),
        s2.host_of(r1->Ok_0).hostname@ == hostname,
        s2.host_of(r1->Ok_0).state == HostState::Idle,
        s2.host_of(r1->Ok_0).last_seen == now2,
{
    lemma_register_keeps_identity(s0, s1, s2, hostname, c1, c2, now1, now2, r1, r2);
    let id = r1->Ok_0;
    let p = name_pos(s1.hosts@, hostname);
    assert(s1.has_name(hostname)) by {
        let k = if s0.has_name(hostname) { name_pos(s0.hosts@, hostname) } else { s0.hosts@.len() as int };
        assert(s1.hosts@[k].hostname@ == hostname);
    }
    assert(s2.hosts@[p].id == id);
    assert(s2.has_host(id));
    let q = host_pos(s2.hosts@, id);
    assert(s2.hosts@.len() == s1.hosts@.len());
    if q != p {
        assert(s1.hosts@[q].id != s1.hosts@[p].id);
    }
}

/// Invoking twice, each time from a fetched source whose manifest parses,
/// yields two distinct invocations, both held by the registry; the later one
/// is current, and both carry the commit that was fetched.
pub proof fn lemma_invoke_twice(
    s0: Instance, s1: Instance, s2: Instance, url: Seq<char>,
    f1: Result<Checkout, InstanceError>, f2: Result<Checkout, InstanceError>,
    id1: InvocationId, id2: InvocationId, start1: i64, start2: i64,
    r1: Result<InvocationId, InstanceError>, r2: Result<InvocationId, InstanceError>,
)
    requires
        s0.wf(),
        s1.wf(),
        f1 matches Ok(c) && c.manifest is Ok,
        f2 matches Ok(c) && c.manifest is Ok,
        Instance::invoked(s0, url, f1, id1, start1, s1, r1),
        Instance::invoked(s1, url, f2, id2, start2, s2, r2),
    ensures
        r1 is Ok,
        r2 is Ok,
        r1->Ok_0 != r2->Ok_0,
        !s0.has_invocation(r1->Ok_0),
        s2.has_invocation(r1->Ok_0),
        s2.has_invocation(r2->Ok_0),
        s2.current == Some(r2->Ok_0),
        s2.invocation_of(r1->Ok_0).url@ == url,
        s2.invocation_of(r2->Ok_0).url@ == url,
        s2.invocation_of(r1->Ok_0).commit@ == f1->Ok_0.commit@,
        s2.invocation_of(r2->Ok_0).commit@ == f2->Ok_0.commit@,
{
    let n = s0.invocations@.len() as int;
    let a = r1->Ok_0;
    let b = r2->Ok_0;
    assert(s1.invocations@[n].id == a);
    assert(s1.has_invocation(a));
    assert(s2.invocations@[n].id == a);
    assert(s2.invocations@[n + 1].id == b);
    assert(s2.has_invocation(a));
    assert(s2.has_invocation(b));
    let p = inv_pos(s2.invocations@, a);
    if p != n {
        assert(s2.invocations@[p].id != s2.invocations@[n].id);
    }
    let q = inv_pos(s2.invocations@, b);
    if q != n + 1 {
        assert(s2.invocations@[q].id != s2.invocations@[n + 1].id);
    }
}

/// An invoke whose source was fetched and whose manifest parses succeeds
/// with a new invocation of that url and commit, with no logs yet, and makes
/// it current.
pub proof fn lemma_invoke_succeeds(
    s: Instance, t: Instance, url: Seq<char>, fetched: Result<Checkout, InstanceError>,
    id: InvocationId, start: i64, r: Result<InvocationId, InstanceError>,
)
    requires
        s.wf(),
        t.wf(),
        fetched matches Ok(c) && c.manifest is Ok,
        Instance::invoked(s, url, fetched, id, start, t, r),
    ensures
        r is Ok,
        !s.has_invocation(r->Ok_0),
        t.has_invocation(r->Ok_0),
        t.current == Some(r->Ok_0),
        t.invocation_of(r->Ok_0).url@ == url,
        t.invocation_of(r->Ok_0).commit@ == fetched->Ok_0.commit@,
        t.invocation_of(r->Ok_0).descriptor is Some,
        t.invocation_of(r->Ok_0).logs@.len() == 0,
{
    let n = s.invocations@.len() as int;
    let a = r->Ok_0;
    assert(t.invocations@[n].id == a);
    let p = inv_pos(t.invocations@, a);
    if p != n {
        assert(t.invocations@[p].id != t.invocations@[n].id);
    }
}

/// An invoke whose manifest does not parse still stores the invocation,
/// without a manifest, and makes it current; the result is a
/// `BrokenManifest` error with the parser's message.
pub proof fn lemma_invoke_broken_manifest(
    s: Instance, t: Instance, url: Seq<char>, fetched: Result<Checkout, InstanceError>,
    id: InvocationId, start: i64, r: Result<InvocationId, InstanceError>,
)
    requires
        s.wf(),
        t.wf(),
        fetched matches Ok(c) && c.manifest is Err,
        Instance::invoked(s, url, fetched, id, start, t, r),
    ensures
        r matches Err(e) && e.kind == InstanceErrorKind::BrokenManifest
            && e.cause == Some(fetched->Ok_0.manifest->Err_0),
        t.current matches Some(i) && !s.has_invocation(i) && t.has_invocation(i)
            && t.invocation_of(i).url@ == url
            && t.invocation_of(i).commit@ == fetched->Ok_0.commit@
            && t.invocation_of(i).descriptor is None
            && t.invocation_of(i).logs@.len() == 0,
{
    let n = s.invocations@.len() as int;
    let a = t.invocations@[n].id;
    assert(t.has_invocation(a));
    let p = inv_pos(t.invocations@, a);
    if p != n {
        assert(t.invocations@[p].id != t.invocations@[n].id);
    }
}

/// A second upload by the same host for the same invocation replaces the
/// first.
pub proof fn lemma_upload_overwrites(
    s0: Instance, s1: Instance, s2: Instance, inv: InvocationId, host: HostId,
    a: Seq<char>, b: Seq<char>, r1: Result<(), InstanceError>, r2: Result<(), InstanceError>,
)
    requires
        s0.wf(),
        s1.wf(),
        Instance::logged(s0, inv, host, a, s1, r1),
        Instance::logged(s1, inv, host, b, s2, r2),
        r1 is Ok,
    ensures
        r2 is Ok,
        s1.invocation_of(inv).log_of(s0.host_of(host).hostname@) == Some(a),
        s2.invocation_of(inv).log_of(s0.host_of(host).hostname@) == Some(b),
{
    let k = inv_pos(s0.invocations@, inv);
    assert(s1.invocations@[k].id == inv);
    assert(s1.has_invocation(inv));
    let k1 = inv_pos(s1.invocations@, inv);
    if k1 != k {
        assert(s1.invocations@[k1].id != s1.invocations@[k].id);
    }
    let k2 = inv_pos(s2.invocations@, inv);
    assert(s2.invocations@[k].id == inv);
    if k2 != k {
        assert(s2.invocations@[k2].id == inv);
        assert(s2.invocations@[k2] == s1.invocations@[k2]);
        assert(s1.invocations@[k2].id != s1.invocations@[k].id);
    }
}

} // verus!
