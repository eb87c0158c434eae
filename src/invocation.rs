//! Invocations: one request to run a source revision across the fleet.

use vstd::prelude::*;
use crate::descriptor::{utc_now_millis, ExperimentDescriptor};
use crate::host::Host;
use crate::ids::InvocationId;
use crate::text::{copy_opt, copy_str, same_text};
use vstd::string::StringExecFns;

verus! {

/// The archive of logs that one host uploaded.
#[derive(Debug)]
pub struct LogEntry {
    pub hostname: String,
    pub archive: String,
}

/// One request to run `url` at `commit`. `descriptor` is `None` when the
/// manifest could not be parsed; such an invocation is kept for diagnostics
/// and never run. `start` is in milliseconds since the Unix epoch.
#[derive(Debug)]
pub struct Invocation {
    pub id: InvocationId,
    pub url: String,
    pub commit: String,
    pub descriptor: Option<ExperimentDescriptor>,
    pub start: i64,
    pub logs: Vec<LogEntry>,
}

/// The summary of an invocation shown in lists.
#[derive(Debug)]
pub struct InvocationRecord {
    pub id: InvocationId,
    pub url: String,
    pub name: Option<String>,
    pub commit: String,
    pub start: i64,
}

/// Whether no host has two entries in `logs`.
pub open spec fn logs_unique(logs: Seq<LogEntry>) -> bool {
    forall|i: int, j: int|
        0 <= i < logs.len() && 0 <= j < logs.len() && i != j ==> logs[i].hostname@ != logs[j].hostname@
}

/// The archive that `logs` binds to `hostname`, if any.
pub open spec fn log_in(logs: Seq<LogEntry>, hostname: Seq<char>) -> Option<Seq<char>> {
    if exists|i: int| 0 <= i < logs.len() && logs[i].hostname@ == hostname {
        Some(logs[choose|i: int| 0 <= i < logs.len() && logs[i].hostname@ == hostname].archive@)
    } else {
        None
    }
}

impl Invocation {
    pub open spec fn wf(&self) -> bool {
        logs_unique(self.logs@)
    }

    /// The archive uploaded for `hostname`, if any.
    pub open spec fn log_of(&self, hostname: Seq<char>) -> Option<Seq<char>> {
        log_in(self.logs@, hostname)
    }

    pub open spec fn record_spec(&self) -> InvocationRecord {
        InvocationRecord {
            id: self.id,
            url: self.url,
            name: match self.descriptor {
                Some(d) => Some(d.name),
                None => None,
            },
            commit: self.commit,
            start: self.start,
        }
    }

    /// A new invocation of `url` at `commit` with a fresh random identity,
    /// started now. `manifest` is the manifest as parsed, or the parser's
    /// message; that message is handed back beside the invocation.
    pub fn new(url: &str, commit: &str, manifest: Result<ExperimentDescriptor, String>) -> (r: (Invocation, Option<String>))
        ensures
            r.0.wf(),
            r.0.url@ == url@,
            r.0.commit@ == commit@,
            r.0.logs@.len() == 0,
            match manifest {
                Ok(d) => r.0.descriptor == Some(d) && r.1 is None,
                Err(m) => r.0.descriptor is None && r.1 == Some(m),
            },
    {
        Invocation::with_id(InvocationId::random(), url, commit, manifest, utc_now_millis())
    }

    /// A new invocation with identity `id`, started at `start`.
    pub fn with_id(id: InvocationId, url: &str, commit: &str, manifest: Result<ExperimentDescriptor, String>, start: i64) -> (r: (Invocation, Option<String>))
        ensures
            r.0.wf(),
            r.0.id == id,
            r.0.url@ == url@,
            r.0.commit@ == commit@,
            r.0.start == start,
            r.0.logs@.len() == 0,
            match manifest {
                Ok(d) => r.0.descriptor == Some(d) && r.1 is None,
                Err(m) => r.0.descriptor is None && r.1 == Some(m),
            },
    {
        let (descriptor, err) = match manifest {
            Ok(d) => (Some(d), None),
            Err(m) => (None, Some(m)),
        };
        let inv = Invocation {
            id,
            url: String::from_str(url),
            commit: String::from_str(commit),
            descriptor,
            start,
            logs: Vec::new(),
        };
        assert(inv.logs@ =~= Seq::<LogEntry>::empty());
        (inv, err)
    }

    pub fn id(&self) -> (r: InvocationId)
        ensures
            r == self.id,
    {
        self.id
    }

    pub fn url(&self) -> (r: &str)
        ensures
            r@ == self.url@,
    {
        self.url.as_str()
    }

    pub fn commit(&self) -> (r: &str)
        ensures
            r@ == self.commit@,
    {
        self.commit.as_str()
    }

    pub fn descriptor(&self) -> (r: &Option<ExperimentDescriptor>)
        ensures
            *r == self.descriptor,
    {
        &self.descriptor
    }

    fn log_index(&self, hostname: &str) -> (r: Option<usize>)
        ensures
            match r {
                Some(i) => i < self.logs@.len() && self.logs@[i as int].hostname@ == hostname@,
                None => forall|i: int| 0 <= i < self.logs@.len() ==> self.logs@[i].hostname@ != hostname@,
            },
    {
        let mut i: usize = 0;
        while i < self.logs.len()
            invariant
                i <= self.logs@.len(),
                forall|j: int| 0 <= j < i ==> self.logs@[j].hostname@ != hostname@,
            decreases self.logs@.len() - i,
        {
            if same_text(self.logs[i].hostname.as_str(), hostname) {
                return Some(i);
            }
            i += 1;
        }
        None
    }

    /// Whether `hostname` has uploaded logs for this invocation.
    pub fn host_has_logged(&self, hostname: &str) -> (r: bool)
        ensures
            r == (self.log_of(hostname@) is Some),
    {
        self.log_index(hostname).is_some()
    }

    /// The archive that `hostname` uploaded, if any.
    pub fn logged_archive(&self, hostname: &str) -> (r: Option<&str>)
        requires
            self.wf(),
        ensures
            match r {
                Some(a) => self.log_of(hostname@) == Some(a@),
                None => self.log_of(hostname@) is None,
            },
    {
        match self.log_index(hostname) {
            Some(i) => {
                proof {
                    let c = choose|j: int| 0 <= j < self.logs@.len() && self.logs@[j].hostname@ == hostname@;
                    assert(c == i);
                }
                Some(self.logs[i].archive.as_str())
            },
            None => None,
        }
    }

    /// Binds `host`'s archive `path` to this invocation; a second upload by
    /// the same host replaces the first.
    pub fn add_log(&mut self, host: &Host, path: &str)
        requires
            old(self).wf(),
        ensures
            final(self).wf(),
            final(self).id == old(self).id,
            final(self).url == old(self).url,
            final(self).commit == old(self).commit,
            final(self).descriptor == old(self).descriptor,
            final(self).start == old(self).start,
            final(self).log_of(host.hostname@) == Some(path@),
            forall|h: Seq<char>| h != host.hostname@ ==> #[trigger] final(self).log_of(h) == old(self).log_of(h),
    {
        let entry = LogEntry { hostname: copy_str(&host.hostname), archive: String::from_str(path) };
        let ghost old_logs = self.logs@;
        match self.log_index(host.hostname.as_str()) {
            Some(i) => {
                self.logs.set(i, entry);
                proof {
                    let logs = self.logs@;
                    assert(logs == old_logs.update(i as int, entry));
                    assert forall|h: Seq<char>| h != host.hostname@ implies #[trigger] log_in(logs, h) == log_in(old_logs, h) by {
                        assert forall|j: int| 0 <= j < logs.len() implies (logs[j].hostname@ == h <==> old_logs[j].hostname@ == h) by {
                            if j == i as int {
                            }
                        }
                    }
                    let c = choose|j: int| 0 <= j < logs.len() && logs[j].hostname@ == host.hostname@;
                    assert(logs[i as int].hostname@ == host.hostname@);
                    assert(c == i);
                }
            },
            None => {
                self.logs.push(entry);
                proof {
                    let logs = self.logs@;
                    let n = old_logs.len() as int;
                    assert(logs == old_logs.push(entry));
                    assert forall|h: Seq<char>| h != host.hostname@ implies #[trigger] log_in(logs, h) == log_in(old_logs, h) by {
                        assert forall|j: int| 0 <= j < logs.len() && logs[j].hostname@ == h implies j < n by {}
                        if exists|j: int| 0 <= j < old_logs.len() && old_logs[j].hostname@ == h {
                            let j = choose|j: int| 0 <= j < old_logs.len() && old_logs[j].hostname@ == h;
                            assert(logs[j].hostname@ == h);
                        }
                    }
                    assert(logs[n].hostname@ == host.hostname@);
                    let c = choose|j: int| 0 <= j < logs.len() && logs[j].hostname@ == host.hostname@;
                    assert(c == n);
                }
            },
        }
    }

    /// The summary of this invocation.
    pub fn record(&self) -> (r: InvocationRecord)
        ensures
            r == self.record_spec(),
    {
        InvocationRecord {
            id: self.id,
            url: copy_str(&self.url),
            name: match &self.descriptor {
                Some(d) => Some(copy_str(&d.name)),
                None => None,
            },
            commit: copy_str(&self.commit),
            start: self.start,
        }
    }

    /// The summary and the manifest, or nothing when the manifest could not
    /// be parsed.
    pub fn split(self) -> (r: Option<(InvocationRecord, ExperimentDescriptor)>)
        ensures
            match self.descriptor {
                Some(d) => r == Some((self.record_spec(), d)),
                None => r is None,
            },
    {
        let record = self.record();
        match self.descriptor {
            Some(d) => Some((record, d)),
            None => None,
        }
    }
}

impl InvocationRecord {
    pub fn id(&self) -> (r: InvocationId)
        ensures
            r == self.id,
    {
        self.id
    }

    pub fn url(&self) -> (r: &str)
        ensures
            r@ == self.url@,
    {
        self.url.as_str()
    }

    pub fn commit(&self) -> (r: &str)
        ensures
            r@ == self.commit@,
    {
        self.commit.as_str()
    }

    pub fn name(&self) -> (r: &Option<String>)
        ensures
            *r == self.name,
    {
        &self.name
    }

    /// A copy of the record.
    pub fn duplicate(&self) -> (r: InvocationRecord)
        ensures
            r == *self,
    {
        InvocationRecord {
            id: self.id,
            url: copy_str(&self.url),
            name: copy_opt(&self.name),
            commit: copy_str(&self.commit),
            start: self.start,
        }
    }
}

} // verus!
