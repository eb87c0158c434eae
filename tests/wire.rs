use cluster::agent::{ClientErrorKind, CurrentReply};
use cluster::connector::{decimal, Connector};
use cluster::descriptor::{current_log_tag, log_tag, ExperimentDescriptor, HostSpec};
use cluster::host::HostState;
use cluster::ids::{HostId, InvocationId};
use cluster::invocation::Invocation;
use cluster::response::{EmptyResponse, Response, ResponseError, ResponseErrorKind, Status};
use cluster::text::{join, same_text};

const TEXT: &str = "550e8400-e29b-41d4-a716-446655440000";
const VALUE: u128 = 0x550e8400_e29b_41d4_a716_446655440000;

#[test]
fn ids_print_hyphenated() {
    assert_eq!(HostId(VALUE).to_string(), TEXT);
    assert_eq!(InvocationId(VALUE).to_string(), TEXT);
    assert_eq!(InvocationId(1).to_string(), "00000000-0000-0000-0000-000000000001");
}

#[test]
fn ids_parse_and_reject() {
    assert_eq!(HostId::parse(TEXT), Some(HostId(VALUE)));
    assert_eq!(InvocationId::parse(TEXT).map(|i| i.as_u128()), Some(VALUE));
    assert_eq!(HostId::parse("not-a-uuid"), None);
    assert_eq!(InvocationId::parse(""), None);
}

#[test]
fn random_ids_differ() {
    assert_ne!(HostId::random(), HostId::random());
    assert_ne!(InvocationId::random(), InvocationId::random());
}

#[test]
fn connector_root_and_targets() {
    let c = Connector::new("10.0.0.1", 8000);
    assert_eq!(c.0, "http://10.0.0.1:8000/api/");
    assert_eq!(c.url("current"), "http://10.0.0.1:8000/api/current");
    assert_eq!(Connector::current_target(), "current");
    assert_eq!(Connector::register_target("alpha"), "host/register/alpha");
    assert_eq!(Connector::invocation_target(InvocationId(VALUE)), format!("invocation/{}", TEXT));
    assert_eq!(
        Connector::upload_target(InvocationId(VALUE), HostId(1)),
        format!("upload/{}/00000000-0000-0000-0000-000000000001", TEXT)
    );
}

#[test]
fn status_targets() {
    let h = HostId(VALUE);
    assert_eq!(Connector::status_target(h, HostState::Idle), Some(format!("host/status/{}/idle", TEXT)));
    assert_eq!(
        Connector::status_target(h, HostState::Compressing(InvocationId(1))),
        Some(format!("host/status/{}/compressing/00000000-0000-0000-0000-000000000001", TEXT))
    );
    assert_eq!(
        Connector::status_target(h, HostState::Done(InvocationId(VALUE))),
        Some(format!("host/status/{}/done/{}", TEXT, TEXT))
    );
    assert_eq!(Connector::status_target(h, HostState::Disconnected), None);
}

#[test]
fn decimal_digits() {
    assert_eq!(decimal(0), "0");
    assert_eq!(decimal(7), "7");
    assert_eq!(decimal(8000), "8000");
    assert_eq!(decimal(65535), "65535");
    assert_eq!(decimal(u64::MAX), "18446744073709551615");
}

#[test]
fn state_words_and_tags() {
    let i = InvocationId(1);
    assert_eq!(HostState::Idle.word(), "idle");
    assert_eq!(HostState::Errored(i).word(), "errored");
    assert_eq!(HostState::Uploading(i).word(), "uploading");
    assert_eq!(HostState::Idle.tag(), "idle");
    assert_eq!(HostState::Done(i).tag(), "running");
    assert_eq!(HostState::Errored(i).tag(), "running");
    assert_eq!(HostState::Disconnected.tag(), "disconnected");
    assert_eq!(HostState::Running(i).invocation(), Some(i));
    assert_eq!(HostState::Disconnected.invocation(), None);
}

#[test]
fn envelope_ok_and_err() {
    let ok = Response { status: Status::Success, payload: Some(5u32), msg: None };
    assert_eq!(ok.into_result().unwrap(), 5);
    let err: Response<u32> = Response { status: Status::Failure, payload: None, msg: Some("no such host".to_string()) };
    let e = err.into_result().unwrap_err();
    assert!(e.is_bad_response());
    assert_eq!(e.kind, ResponseErrorKind::BadResponse(Some("no such host".to_string())));
    assert_eq!(e.to_string(), "no such host");
    assert!(EmptyResponse { status: Status::Success, msg: None }.into_result().is_ok());
    let e = EmptyResponse { status: Status::Failure, msg: None }.into_result().unwrap_err();
    assert_eq!(e.kind, ResponseErrorKind::BadResponse(None));
    assert_eq!(e.to_string(), "the API returned an error");
}

#[test]
fn transport_failure_is_not_bad_response() {
    let e = ResponseError::request_failed(Some("connection refused".to_string()));
    assert!(!e.is_bad_response());
    assert_eq!(e.to_string(), "could not reach the API");
}

#[test]
fn path_joins() {
    assert_eq!(join("ws", "logs"), "ws/logs");
    assert_eq!(join("ws/", "logs"), "ws/logs");
    assert_eq!(join("", "logs"), "logs");
    assert!(same_text("abc", "abc"));
    assert!(!same_text("abc", "abd"));
    assert!(!same_text("abc", "ab"));
}

#[test]
fn log_tags() {
    assert_eq!(log_tag("alpha", "exp", "2020-01-02T03:04:05"), "alpha@exp-2020-01-02T03:04:05");
    let t = current_log_tag("alpha", "exp").unwrap();
    assert!(t.starts_with("alpha@exp-"));
    assert_eq!(t.len(), "alpha@exp-".len() + 19);
    assert_eq!(&t[14..15], "-");
    assert_eq!(&t[20..21], "T");
}

fn descriptor(gen_logs: bool) -> ExperimentDescriptor {
    ExperimentDescriptor {
        name: "exp".to_string(),
        command: Some("make".to_string()),
        args: vec!["setup".to_string()],
        hosts: vec![
            HostSpec { hostname: "alpha".to_string(), command: Some("./run".to_string()), args: vec!["--fast".to_string()] },
            HostSpec { hostname: "alpha".to_string(), command: Some("./other".to_string()), args: vec![] },
        ],
        log_dir: "logs".to_string(),
        gen_logs,
    }
}

#[test]
fn commands_for_named_host() {
    let d = descriptor(true);
    let phases = d.commands_for("alpha", "experiment/", "alpha@exp-T");
    assert_eq!(phases.len(), 2);
    assert_eq!(phases[0].program.as_deref(), Some("make"));
    assert_eq!(phases[0].args, vec!["setup".to_string()]);
    assert_eq!(phases[1].program.as_deref(), Some("./run"));
    assert_eq!(phases[1].args, vec!["--fast".to_string()]);
    for p in &phases {
        assert_eq!(p.dir, "experiment/");
        assert_eq!(p.stdout.as_deref(), Some("experiment/logs/alpha@exp-T.stdout"));
        assert_eq!(p.stderr.as_deref(), Some("experiment/logs/alpha@exp-T.stderr"));
    }
}

#[test]
fn commands_for_unnamed_host_without_logs() {
    let d = descriptor(false);
    let phases = d.commands_for("gamma", "ws", "tag");
    assert_eq!(phases[0].program.as_deref(), Some("make"));
    assert_eq!(phases[1].program, None);
    assert!(phases[1].args.is_empty());
    assert!(phases.iter().all(|p| p.stdout.is_none() && p.stderr.is_none()));
    assert!(d.host_spec("gamma").is_none());
    assert_eq!(d.host_spec("alpha").unwrap().command.as_deref(), Some("./run"));
}

#[test]
fn invocation_split_and_record() {
    let (inv, err) = Invocation::new("git://r", "abc", Ok(descriptor(false)));
    assert!(err.is_none());
    let rec = inv.record();
    assert_eq!(rec.id(), inv.id());
    assert_eq!(rec.name().as_deref(), Some("exp"));
    let (rec2, d) = inv.split().unwrap();
    assert_eq!(rec2.url(), "git://r");
    assert_eq!(rec2.commit(), "abc");
    assert_eq!(d.name(), "exp");
    let (broken, err) = Invocation::new("git://r", "abc", Err("bad toml".to_string()));
    assert_eq!(err, Some("bad toml".to_string()));
    assert!(broken.split().is_none());
}

#[test]
fn client_error_descriptions() {
    assert_eq!(ClientErrorKind::NoHostname.describe(), "couldn't get the client hostname from the system");
    assert_eq!(ClientErrorKind::UploadFailed.describe(), "couldn't upload the log archive for the current invocation");
}

#[test]
fn current_replies_distinguish_failures() {
    assert_eq!(CurrentReply::from_response(Ok(TEXT.to_string())), CurrentReply::Id(InvocationId(VALUE)));
    assert_eq!(CurrentReply::from_response(Ok("garbage".to_string())), CurrentReply::Unreachable);
    let bad = Response::<String> { status: Status::Failure, payload: None, msg: None }.into_result();
    assert_eq!(CurrentReply::from_response(bad), CurrentReply::NoCurrent);
    let down = Err(ResponseError::request_failed(None));
    assert_eq!(CurrentReply::from_response(down), CurrentReply::Unreachable);
}

#[test]
fn states_read_back_from_words() {
    let i = InvocationId(3);
    for s in [
        HostState::Idle,
        HostState::Running(i),
        HostState::Errored(i),
        HostState::Compressing(i),
        HostState::Uploading(i),
        HostState::Done(i),
        HostState::Disconnected,
    ] {
        assert_eq!(HostState::from_word(s.word(), s.invocation()), Some(s));
    }
    assert_eq!(HostState::from_word("idle", Some(i)), None);
    assert_eq!(HostState::from_word("running", None), None);
    assert_eq!(HostState::from_word("paused", Some(i)), None);
}

#[test]
fn manifest_host_names_unique() {
    assert!(!descriptor(false).hosts_unique());
    let mut d = descriptor(false);
    d.hosts.pop();
    assert!(d.hosts_unique());
    d.hosts.push(HostSpec { hostname: "beta".to_string(), command: None, args: vec![] });
    assert!(d.hosts_unique());
}
