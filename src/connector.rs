//! The agent's view of the coordinator's API: the address of each endpoint.

use vstd::prelude::*;
use vstd::string::StringExecFns;
use crate::host::{state_invocation, state_word, HostState};
use crate::ids::{uuid_text_of, HostId, InvocationId};

verus! {

/// The character of decimal digit `d`.
pub open spec fn digit_char(d: int) -> char {
    if d == 0 { '0' } else if d == 1 { '1' } else if d == 2 { '2' } else if d == 3 { '3' }
    else if d == 4 { '4' } else if d == 5 { '5' } else if d == 6 { '6' } else if d == 7 { '7' }
    else if d == 8 { '8' } else { '9' }
}

/// The decimal digits of `n`, without leading zeros.
pub open spec fn decimal_spec(n: nat) -> Seq<char>
    decreases n,
{
    if n < 10 {
        seq![digit_char(n as int)]
    } else {
        decimal_spec(n / 10) + seq![digit_char((n % 10) as int)]
    }
}

fn digit_str(d: u64) -> (r: &'static str)
    requires
        d < 10,
    ensures
        r@ == seq![digit_char(d as int)],
{
    proof {
        reveal_strlit("0"); reveal_strlit("1"); reveal_strlit("2"); reveal_strlit("3");
        reveal_strlit("4"); reveal_strlit("5"); reveal_strlit("6"); reveal_strlit("7");
        reveal_strlit("8"); reveal_strlit("9");
    }
    let r = if d == 0 { "0" } else if d == 1 { "1" } else if d == 2 { "2" } else if d == 3 { "3" }
    else if d == 4 { "4" } else if d == 5 { "5" } else if d == 6 { "6" } else if d == 7 { "7" }
    else if d == 8 { "8" } else { "9" };
    assert(r@ =~= seq![digit_char(d as int)]);
    r
}

/// `n` written in decimal.
pub fn decimal(n: u64) -> (r: String)
    ensures
        r@ == decimal_spec(n as nat),
    decreases n,
{
    if n < 10 {
        String::from_str(digit_str(n))
    } else {
        let mut s = decimal(n / 10);
        s.append(digit_str(n % 10));
        s
    }
}

/// The path, under the API's root, to which a host reports `state`; none
/// for `Disconnected`, which only the coordinator assigns.
pub open spec fn status_target_spec(host: u128, state: HostState) -> Option<Seq<char>> {
    match state {
        HostState::Disconnected => None,
        HostState::Idle => Some("host/status/"@ + uuid_text_of(host) + "/idle"@),
        _ => Some("host/status/"@ + uuid_text_of(host) + "/"@ + state_word(state) + "/"@
            + uuid_text_of(state_invocation(state)->Some_0.0)),
    }
}

/// The root of the coordinator's API.
#[derive(Debug)]
pub struct Connector(pub String);

impl Connector {
    /// The API of the coordinator at `server`, port `port`:
    /// `http://<server>:<port>/api/`.
    pub fn new(server: &str, port: u16) -> (r: Connector)
        ensures
            r.0@ == "http://"@ + server@ + ":"@ + decimal_spec(port as nat) + "/api/"@,
    {
        let mut s = String::from_str("http://");
        s.append(server);
        s.append(":");
        let p = decimal(port as u64);
        s.append(p.as_str());
        s.append("/api/");
        Connector(s)
    }

    /// The address of `target` under the API's root.
    pub fn url(&self, target: &str) -> (r: String)
        ensures
            r@ == self.0@ + target@,
    {
        let mut s = self.0.clone();
        s.append(target);
        s
    }

    /// Where host `id` reports `state`.
    pub fn status_target(id: HostId, state: HostState) -> (r: Option<String>)
        ensures
            match r {
                Some(t) => status_target_spec(id.0, state) == Some(t@),
                None => status_target_spec(id.0, state) is None,
            },
    {
        match state {
            HostState::Disconnected => None,
            HostState::Idle => {
                let mut s = String::from_str("host/status/");
                s.append(id.to_string().as_str());
                s.append("/idle");
                Some(s)
            },
            _ => {
                let inv = match state.invocation() {
                    Some(inv) => inv,
                    None => return None,
                };
                let mut s = String::from_str("host/status/");
                s.append(id.to_string().as_str());
                s.append("/");
                s.append(state.word());
                s.append("/");
                s.append(inv.to_string().as_str());
                Some(s)
            },
        }
    }

    /// Where `hostname` registers.
    pub fn register_target(hostname: &str) -> (r: String)
        ensures
            r@ == "host/register/"@ + hostname@,
    {
        let mut s = String::from_str("host/register/");
        s.append(hostname);
        s
    }

    /// Where the current invocation is read.
    pub fn current_target() -> (r: &'static str)
        ensures
            r@ == "current"@,
    {
        "current"
    }

    /// Where invocation `id` is read.
    pub fn invocation_target(id: InvocationId) -> (r: String)
        ensures
            r@ == "invocation/"@ + uuid_text_of(id.0),
    {
        let mut s = String::from_str("invocation/");
        s.append(id.to_string().as_str());
        s
    }

    /// Where host `host` uploads its logs of invocation `id`.
    pub fn upload_target(id: InvocationId, host: HostId) -> (r: String)
        ensures
            r@ == "upload/"@ + uuid_text_of(id.0) + "/"@ + uuid_text_of(host.0),
    {
        let mut s = String::from_str("upload/");
        s.append(id.to_string().as_str());
        s.append("/");
        s.append(host.to_string().as_str());
        s
    }
}

} // verus!
