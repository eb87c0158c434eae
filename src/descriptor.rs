//! The parsed experiment manifest and the commands it asks a host to run.

use vstd::prelude::*;
use vstd::string::StringExecFns;
use crate::text::{copy_opt, copy_strings, join, join_path, same_text};

verus! {

/// The UTC date and time, to the second, of a moment given in milliseconds
/// since the Unix epoch, written `YYYY-MM-DDTHH:MM:SS` as `chrono` formats it;
/// nothing for a moment out of `chrono`'s range.
pub uninterp spec fn utc_seconds_text_of(millis: i64) -> Option<Seq<char>>;

/// Relies on `chrono::Utc::now`: the current time in milliseconds since the
/// Unix epoch. Nothing is promised of the value.
#[verifier::external_body]
pub(crate) fn utc_now_millis() -> (r: i64) {
    chrono::Utc::now().timestamp_millis()
}

/// Relies on `chrono::DateTime::from_timestamp_millis` and `format`, with
/// the pattern `%Y-%m-%dT%H:%M:%S`.
#[verifier::external_body]
fn utc_seconds_text(millis: i64) -> (r: Option<String>)
    ensures
        match r {
            Some(t) => utc_seconds_text_of(millis) == Some(t@),
            None => utc_seconds_text_of(millis) is None,
        },
{
    match chrono::DateTime::from_timestamp_millis(millis) {
        Some(t) => Some(t.format("%Y-%m-%dT%H:%M:%S").to_string()),
        None => None,
    }
}

/// What the manifest asks of one host.
#[derive(Debug)]
pub struct HostSpec {
    pub hostname: String,
    pub command: Option<String>,
    pub args: Vec<String>,
}

/// A parsed manifest.
#[derive(Debug)]
pub struct ExperimentDescriptor {
    pub name: String,
    /// The setup that every host runs first; none when absent.
    pub command: Option<String>,
    pub args: Vec<String>,
    /// What each named host runs after the setup.
    pub hosts: Vec<HostSpec>,
    /// The directory, under the workspace, where the run leaves its logs.
    pub log_dir: String,
    /// Whether the commands' output goes to files in `log_dir`.
    pub gen_logs: bool,
}

/// One phase of a run: a program with its arguments, run in `dir`, with its
/// standard output and error sent to the named files or inherited. A phase
/// with no program is skipped.
#[derive(Debug)]
pub struct Command {
    pub program: Option<String>,
    pub args: Vec<String>,
    pub dir: String,
    pub stdout: Option<String>,
    pub stderr: Option<String>,
}

/// The log tag of a run: `hostname@name-stamp`.
pub open spec fn log_tag_spec(hostname: Seq<char>, name: Seq<char>, stamp: Seq<char>) -> Seq<char> {
    hostname + "@"@ + name + "-"@ + stamp
}

/// The file that receives a stream of a run, for `suffix` `.stdout` or
/// `.stderr`.
pub open spec fn log_file(workspace: Seq<char>, log_dir: Seq<char>, tag: Seq<char>, suffix: Seq<char>) -> Seq<char> {
    join_path(join_path(workspace, log_dir), tag + suffix)
}

/// Whether entry `i` is the first entry of `hosts` for `hostname`.
pub open spec fn first_entry(hosts: Seq<HostSpec>, hostname: Seq<char>, i: int) -> bool {
    &&& 0 <= i < hosts.len()
    &&& hosts[i].hostname@ == hostname
    &&& forall|j: int| 0 <= j < i ==> hosts[j].hostname@ != hostname
}

/// Builds `log_tag_spec(hostname, name, stamp)`.
pub fn log_tag(hostname: &str, name: &str, stamp: &str) -> (r: String)
    ensures
        r@ == log_tag_spec(hostname@, name@, stamp@),
{
    let mut s = String::from_str(hostname);
    s.append("@");
    s.append(name);
    s.append("-");
    s.append(stamp);
    proof {
        reveal_strlit("@");
        reveal_strlit("-");
    }
    s
}

/// The log tag of a run that starts now: the stamp is the current UTC time
/// to the second. `None` only when the clock reads a time out of range.
pub fn current_log_tag(hostname: &str, name: &str) -> (r: Option<String>)
    ensures
        r matches Some(t) ==> exists|ms: i64|
            #![trigger utc_seconds_text_of(ms)]
            utc_seconds_text_of(ms) matches Some(stamp)
            && t@ == log_tag_spec(hostname@, name@, stamp),
        r is None ==> exists|ms: i64|
            #![trigger utc_seconds_text_of(ms)]
            utc_seconds_text_of(ms) is None,
{
    let ms = utc_now_millis();
    match utc_seconds_text(ms) {
        Some(stamp) => {
            let t = log_tag(hostname, name, stamp.as_str());
            assert(utc_seconds_text_of(ms) == Some(stamp@));
            Some(t)
        },
        None => {
            assert(utc_seconds_text_of(ms) is None);
            None
        },
    }
}

impl ExperimentDescriptor {
    /// The manifest names each host at most once.
    pub open spec fn wf(&self) -> bool {
        forall|i: int, j: int|
            0 <= i < self.hosts@.len() && 0 <= j < self.hosts@.len() && i != j
                ==> self.hosts@[i].hostname@ != self.hosts@[j].hostname@
    }

    /// Whether the manifest names each host at most once.
    pub fn hosts_unique(&self) -> (r: bool)
        ensures
            r == self.wf(),
    {
        let n = self.hosts.len();
        let mut i: usize = 0;
        while i < n
            invariant
                n == self.hosts@.len(),
                i <= n,
                forall|a: int, b: int| 0 <= a < i && 0 <= b < n && a != b
                    ==> self.hosts@[a].hostname@ != self.hosts@[b].hostname@,
            decreases n - i,
        {
            let mut j: usize = 0;
            while j < n
                invariant
                    n == self.hosts@.len(),
                    i < n,
                    j <= n,
                    forall|a: int, b: int| 0 <= a < i && 0 <= b < n && a != b
                        ==> self.hosts@[a].hostname@ != self.hosts@[b].hostname@,
                    forall|b: int| 0 <= b < j && b != i ==> self.hosts@[i as int].hostname@ != self.hosts@[b].hostname@,
                decreases n - j,
            {
                if j != i && same_text(self.hosts[i].hostname.as_str(), self.hosts[j].hostname.as_str()) {
                    return false;
                }
                j += 1;
            }
            i += 1;
        }
        true
    }

    pub fn name(&self) -> (r: &str)
        ensures
            r@ == self.name@,
    {
        self.name.as_str()
    }

    pub fn log_dir(&self) -> (r: &str)
        ensures
            r@ == self.log_dir@,
    {
        self.log_dir.as_str()
    }

    /// The first entry of the manifest for `hostname`, if any.
    pub fn host_spec(&self, hostname: &str) -> (r: Option<&HostSpec>)
        ensures
            self.wf() ==> (r matches Some(h) ==> forall|j: int|
                0 <= j < self.hosts@.len() && self.hosts@[j].hostname@ == hostname@ ==> *h == self.hosts@[j]),
            match r {
                Some(h) => exists|i: int| first_entry(self.hosts@, hostname@, i) && *h == self.hosts@[i],
                None => forall|i: int| 0 <= i < self.hosts@.len() ==> self.hosts@[i].hostname@ != hostname@,
            },
    {
        let mut i: usize = 0;
        while i < self.hosts.len()
            invariant
                i <= self.hosts@.len(),
                forall|j: int| 0 <= j < i ==> self.hosts@[j].hostname@ != hostname@,
            decreases self.hosts@.len() - i,
        {
            if same_text(self.hosts[i].hostname.as_str(), hostname) {
                assert(first_entry(self.hosts@, hostname@, i as int));
                return Some(&self.hosts[i]);
            }
            i += 1;
        }
        None
    }

    /// The phases that `hostname` runs, in order: the manifest's setup, then
    /// the host's own command (none when the manifest does not name the host).
    /// Both run in `workspace`; with `gen_logs` their output goes to
    /// `<workspace>/<log_dir>/<tag>.stdout` and `.stderr`.
    pub fn commands_for(&self, hostname: &str, workspace: &str, tag: &str) -> (r: Vec<Command>)
        ensures
            r@.len() == 2,
            r@[0].program == self.command,
            r@[0].args@ == self.args@,
            match self.host_spec_of(hostname@) {
                Some(i) => r@[1].program == self.hosts@[i].command && r@[1].args@ == self.hosts@[i].args@,
                None => r@[1].program is None && r@[1].args@.len() == 0,
            },
            forall|k: int| 0 <= k < 2 ==> {
                &&& (#[trigger] r@[k]).dir@ == workspace@
                &&& if self.gen_logs {
                    &&& r@[k].stdout matches Some(p) && p@ == log_file(workspace@, self.log_dir@, tag@, ".stdout"@)
                    &&& r@[k].stderr matches Some(p) && p@ == log_file(workspace@, self.log_dir@, tag@, ".stderr"@)
                } else {
                    r@[k].stdout is None && r@[k].stderr is None
                }
            },
    {
        let setup = self.phase(copy_opt(&self.command), copy_strings(&self.args), workspace, tag);
        let own = match self.host_spec(hostname) {
            Some(h) => {
                proof {
                    self.lemma_first_entry_unique(hostname@);
                }
                self.phase(copy_opt(&h.command), copy_strings(&h.args), workspace, tag)
            },
            None => self.phase(None, Vec::new(), workspace, tag),
        };
        let mut r: Vec<Command> = Vec::new();
        r.push(setup);
        r.push(own);
        r
    }

    /// The index of the first entry for `hostname`, if any.
    pub open spec fn host_spec_of(&self, hostname: Seq<char>) -> Option<int> {
        if exists|i: int| first_entry(self.hosts@, hostname, i) {
            Some(choose|i: int| first_entry(self.hosts@, hostname, i))
        } else {
            None
        }
    }

    proof fn lemma_first_entry_unique(&self, hostname: Seq<char>)
        ensures
            forall|i: int, j: int| first_entry(self.hosts@, hostname, i) && first_entry(self.hosts@, hostname, j) ==> i == j,
    {
        assert forall|i: int, j: int| first_entry(self.hosts@, hostname, i) && first_entry(self.hosts@, hostname, j) implies i == j by {
            if i < j {
                assert(self.hosts@[i].hostname@ != hostname);
            } else if j < i {
                assert(self.hosts@[j].hostname@ != hostname);
            }
        }
    }

    fn phase(&self, program: Option<String>, args: Vec<String>, workspace: &str, tag: &str) -> (r: Command)
        ensures
            r.program == program,
            r.args@ == args@,
            r.dir@ == workspace@,
            if self.gen_logs {
                &&& r.stdout matches Some(p) && p@ == log_file(workspace@, self.log_dir@, tag@, ".stdout"@)
                &&& r.stderr matches Some(p) && p@ == log_file(workspace@, self.log_dir@, tag@, ".stderr"@)
            } else {
                r.stdout is None && r.stderr is None
            },
    {
        let (stdout, stderr) = if self.gen_logs {
            let dir = join(workspace, self.log_dir.as_str());
            let mut out_name = String::from_str(tag);
            out_name.append(".stdout");
            let mut err_name = String::from_str(tag);
            err_name.append(".stderr");
            (Some(join(dir.as_str(), out_name.as_str())), Some(join(dir.as_str(), err_name.as_str())))
        } else {
            (None, None)
        };
        Command { program, args, dir: String::from_str(workspace), stdout, stderr }
    }
}

} // verus!
