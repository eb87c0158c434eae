use cluster::descriptor::ExperimentDescriptor;
use cluster::host::{Host, HostState};
use cluster::ids::{HostId, InvocationId};
use cluster::instance::{fresh_upload_path, upload_path, Checkout, Instance, InstanceError, InstanceErrorKind};

fn manifest(name: &str) -> ExperimentDescriptor {
    ExperimentDescriptor {
        name: name.to_string(),
        command: None,
        args: vec![],
        hosts: vec![],
        log_dir: "logs/".to_string(),
        gen_logs: false,
    }
}

fn checkout(commit: &str) -> Result<Checkout, InstanceError> {
    Ok(Checkout { commit: commit.to_string(), manifest: Ok(manifest("exp")) })
}

#[test]
fn register_lists_new_host_idle() {
    let mut inst = Instance::new("experiment/");
    let x = inst.register_with("alpha", HostId(7), 100).unwrap();
    assert_eq!(x, HostId(7));
    let hosts = inst.hosts();
    assert_eq!(hosts.len(), 1);
    assert_eq!(hosts[0].id, x);
    assert_eq!(hosts[0].hostname, "alpha");
    assert_eq!(hosts[0].state, HostState::Idle);
}

#[test]
fn register_random_identity() {
    let mut inst = Instance::new("experiment/");
    let x = inst.register("alpha", 0).unwrap();
    let y = inst.register("alpha", 5).unwrap();
    assert_eq!(x, y);
    let z = inst.register("beta", 6).unwrap();
    assert_ne!(x, z);
    assert_eq!(inst.hosts().len(), 2);
}

#[test]
fn register_twice_keeps_identity_and_refreshes() {
    let mut inst = Instance::new("ws");
    let inv = inst.invoke_with("git://r", checkout("abc"), InvocationId(9), 0).unwrap();
    let x = inst.register_with("alpha", HostId(1), 10).unwrap();
    inst.set_state(x, HostState::Running(inv), 20).unwrap();
    let y = inst.register_with("alpha", HostId(2), 30).unwrap();
    assert_eq!(x, y);
    let h = inst.host(x).unwrap();
    assert_eq!(h.last_seen, 30);
    assert_eq!(h.state, HostState::Idle);
    assert!(inst.host(HostId(2)).is_none());
}

#[test]
fn register_identity_taken_takes_least_free() {
    let mut inst = Instance::new("ws");
    inst.register_with("alpha", HostId(0), 10).unwrap();
    let b = inst.register_with("beta", HostId(0), 11).unwrap();
    assert_eq!(b, HostId(1));
    let c = inst.register_with("gamma", HostId(1), 12).unwrap();
    assert_eq!(c, HostId(2));
    assert_eq!(inst.hosts().len(), 3);
    assert_eq!(inst.host(HostId(1)).unwrap().hostname, "beta");
}

#[test]
fn status_with_unknown_invocation_rejected() {
    let mut inst = Instance::new("ws");
    let x = inst.register_with("alpha", HostId(1), 10).unwrap();
    let err = inst.set_state(x, HostState::Running(InvocationId(42)), 20).unwrap_err();
    assert_eq!(err.kind, InstanceErrorKind::InvalidId);
    let h = inst.host(x).unwrap();
    assert_eq!(h.state, HostState::Idle);
    assert_eq!(h.last_seen, 10);
}

#[test]
fn status_of_unknown_host_rejected() {
    let mut inst = Instance::new("ws");
    let err = inst.set_state(HostId(3), HostState::Idle, 20).unwrap_err();
    assert_eq!(err.kind, InstanceErrorKind::InvalidId);
}

#[test]
fn status_refreshes_and_sets_state() {
    let mut inst = Instance::new("ws");
    let inv = inst.invoke_with("git://r", checkout("abc"), InvocationId(9), 0).unwrap();
    let x = inst.register_with("alpha", HostId(1), 10).unwrap();
    inst.set_state(x, HostState::Uploading(inv), 50).unwrap();
    let h = inst.host(x).unwrap();
    assert_eq!(h.state, HostState::Uploading(inv));
    assert_eq!(h.last_seen, 50);
}

#[test]
fn reap_marks_silent_hosts_disconnected() {
    let mut inst = Instance::new("ws");
    inst.register_with("alpha", HostId(1), 0).unwrap();
    inst.register_with("beta", HostId(2), 3000).unwrap();
    inst.reap(5000);
    assert_eq!(inst.host(HostId(1)).unwrap().state, HostState::Idle);
    inst.reap(5001);
    assert_eq!(inst.host(HostId(1)).unwrap().state, HostState::Disconnected);
    assert_eq!(inst.host(HostId(2)).unwrap().state, HostState::Idle);
    assert_eq!(inst.hosts().len(), 2);
    let again = inst.register_with("alpha", HostId(5), 6000).unwrap();
    assert_eq!(again, HostId(1));
    assert_eq!(inst.host(HostId(1)).unwrap().state, HostState::Idle);
}

#[test]
fn host_expiry_boundary() {
    let h = Host::with_id(HostId(1), "alpha", 1000);
    assert!(!h.expired(6000));
    assert!(h.expired(6001));
    assert!(!h.expired(0));
}

#[test]
fn invoke_twice_gives_distinct_current_ids() {
    let mut inst = Instance::new("ws");
    let a = inst.invoke("git://r", checkout("abc")).unwrap();
    let b = inst.invoke("git://r", checkout("abc")).unwrap();
    assert_ne!(a, b);
    assert!(inst.invocation(a).is_some());
    assert!(inst.invocation(b).is_some());
    assert_eq!(inst.current_invocation(), Some(b));
    assert_eq!(inst.invocation(a).unwrap().commit(), "abc");
}

#[test]
fn invoke_with_taken_identity_takes_least_free() {
    let mut inst = Instance::new("ws");
    inst.invoke_with("git://r", checkout("abc"), InvocationId(1), 0).unwrap();
    let b = inst.invoke_with("git://s", checkout("def"), InvocationId(1), 5).unwrap();
    assert_eq!(b, InvocationId(0));
    assert_eq!(inst.invocations().len(), 2);
    assert_eq!(inst.invocation(InvocationId(1)).unwrap().url(), "git://r");
    assert_eq!(inst.invocation(b).unwrap().url(), "git://s");
    assert_eq!(inst.current_invocation(), Some(b));
}

#[test]
fn invoke_broken_manifest_still_current() {
    let mut inst = Instance::new("ws");
    let fetched = Ok(Checkout { commit: "abc".to_string(), manifest: Err("missing field `name`".to_string()) });
    let err = inst.invoke_with("git://r", fetched, InvocationId(4), 0).unwrap_err();
    assert_eq!(err.kind, InstanceErrorKind::BrokenManifest);
    assert_eq!(err.cause, Some("missing field `name`".to_string()));
    assert_eq!(err.to_string(), "the repository supplied had a manifest that could not be parsed");
    assert_eq!(inst.current_invocation(), Some(InvocationId(4)));
    let inv = inst.invocation(InvocationId(4)).unwrap();
    assert!(inv.descriptor().is_none());
    let records = inst.invocations();
    assert_eq!(records[0].name, None);
}

#[test]
fn invoke_fetch_failure_changes_nothing() {
    let mut inst = Instance::new("ws");
    let fetched = Err(InstanceError { kind: InstanceErrorKind::CloningFailed, cause: Some("no route".to_string()) });
    let err = inst.invoke_with("git://r", fetched, InvocationId(4), 0).unwrap_err();
    assert_eq!(err.kind, InstanceErrorKind::CloningFailed);
    assert_eq!(inst.current_invocation(), None);
    assert_eq!(inst.invocations().len(), 0);
}

#[test]
fn reinvoke_reuses_url_and_commit() {
    let mut inst = Instance::new("ws");
    let a = inst.invoke_with("git://r", checkout("abc"), InvocationId(1), 0).unwrap();
    inst.cancel();
    assert_eq!(inst.current_invocation(), None);
    let b = inst.reinvoke_with(a, Ok(Ok(manifest("exp"))), InvocationId(2), 10).unwrap();
    assert_eq!(b, InvocationId(2));
    let inv = inst.invocation(b).unwrap();
    assert_eq!(inv.url(), "git://r");
    assert_eq!(inv.commit(), "abc");
    assert_eq!(inst.current_invocation(), Some(b));
    assert_eq!(inst.source_of(a), Some(("git://r".to_string(), "abc".to_string())));
}

#[test]
fn reinvoke_unknown_fails() {
    let mut inst = Instance::new("ws");
    let err = inst.reinvoke(InvocationId(77), Ok(Ok(manifest("exp")))).unwrap_err();
    assert_eq!(err.kind, InstanceErrorKind::InvalidId);
    assert_eq!(inst.invocations().len(), 0);
}

#[test]
fn upload_again_overwrites() {
    let mut inst = Instance::new("ws");
    let inv = inst.invoke_with("git://r", checkout("abc"), InvocationId(1), 0).unwrap();
    let x = inst.register_with("alpha", HostId(1), 10).unwrap();
    inst.add_log(inv, x, "logs/a.tar.gz").unwrap();
    assert_eq!(inst.invocation(inv).unwrap().logged_archive("alpha"), Some("logs/a.tar.gz"));
    inst.add_log(inv, x, "logs/b.tar.gz").unwrap();
    let i = inst.invocation(inv).unwrap();
    assert_eq!(i.logged_archive("alpha"), Some("logs/b.tar.gz"));
    assert_eq!(i.logs.len(), 1);
    assert!(i.host_has_logged("alpha"));
    assert!(!i.host_has_logged("beta"));
}

#[test]
fn upload_unknown_ids_rejected() {
    let mut inst = Instance::new("ws");
    let inv = inst.invoke_with("git://r", checkout("abc"), InvocationId(1), 0).unwrap();
    let x = inst.register_with("alpha", HostId(1), 10).unwrap();
    assert_eq!(inst.add_log(InvocationId(2), x, "a").unwrap_err().kind, InstanceErrorKind::InvalidId);
    assert_eq!(inst.add_log(inv, HostId(2), "a").unwrap_err().kind, InstanceErrorKind::InvalidId);
    assert!(!inst.invocation(inv).unwrap().host_has_logged("alpha"));
}

#[test]
fn invocations_list_records_in_order() {
    let mut inst = Instance::new("ws");
    inst.invoke_with("git://r", checkout("abc"), InvocationId(1), 100).unwrap();
    inst.invoke_with("git://s", checkout("def"), InvocationId(2), 200).unwrap();
    let records = inst.invocations();
    assert_eq!(records.len(), 2);
    assert_eq!(records[0].id(), InvocationId(1));
    assert_eq!(records[0].url(), "git://r");
    assert_eq!(records[0].name, Some("exp".to_string()));
    assert_eq!(records[0].start, 100);
    assert_eq!(records[1].commit(), "def");
}

#[test]
fn error_kind_descriptions() {
    assert_eq!(InstanceErrorKind::InvalidId.describe(), "the supplied invocation or host ID was invalid");
    assert_eq!(InstanceErrorKind::CloningFailed.describe(), "there was a failure while attempting to clone the repository");
    assert_eq!(InstanceError::from_kind(InstanceErrorKind::MissingCommits).to_string(), "the cloned repository has commits missing");
}

#[test]
fn upload_paths_named_by_uuid() {
    assert_eq!(upload_path("logs/", 1), "logs/00000000-0000-0000-0000-000000000001.tar.gz");
    assert_eq!(upload_path("logs", 1), "logs/00000000-0000-0000-0000-000000000001.tar.gz");
    let p = fresh_upload_path("logs/");
    assert!(p.starts_with("logs/"));
    assert!(p.ends_with(".tar.gz"));
    assert_eq!(p.len(), 5 + 36 + 7);
    assert_ne!(p, fresh_upload_path("logs/"));
}

#[test]
fn finished_run_binds_archive_to_host() {
    let mut inst = Instance::new("ws");
    let x = inst.register("alpha", 0).unwrap();
    let i = inst.invoke("git://r", checkout("abc")).unwrap();
    inst.set_state(x, HostState::Running(i), 10).unwrap();
    let archive = fresh_upload_path("logs/");
    inst.add_log(i, x, &archive).unwrap();
    inst.set_state(x, HostState::Done(i), 20).unwrap();
    let logged = inst.invocation(i).unwrap().logged_archive("alpha").unwrap().to_string();
    assert_eq!(logged, archive);
    assert!(logged.starts_with("logs/") && logged.ends_with(".tar.gz"));
}

#[test]
fn restarted_coordinator_forgets_host() {
    let mut before = Instance::new("ws");
    let x = before.register("alpha", 0).unwrap();
    let mut after = Instance::new("ws");
    assert_eq!(after.set_state(x, HostState::Idle, 5).unwrap_err().kind, InstanceErrorKind::InvalidId);
    let y = after.register("alpha", 6).unwrap();
    assert!(after.set_state(y, HostState::Idle, 7).is_ok());
}

#[test]
fn configured_timeout_governs_reaping() {
    let mut inst = Instance::with_timeout("ws", 100);
    inst.register_with("alpha", HostId(1), 0).unwrap();
    inst.reap(100);
    assert_eq!(inst.host(HostId(1)).unwrap().state, HostState::Idle);
    inst.reap(101);
    assert_eq!(inst.host(HostId(1)).unwrap().state, HostState::Disconnected);
    assert_eq!(Instance::new("ws").timeout_ms, 5000);
}
