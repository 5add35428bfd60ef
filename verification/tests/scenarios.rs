use proc_keeper::config::ProcessSpec;
use proc_keeper::config::RestartPolicy;
use proc_keeper::event::EventKind;
use proc_keeper::machine::ExitStatus;
use proc_keeper::registry::Registry;
use proc_keeper::registry::SupervisedRecord;

fn spec(name: &str, policy: RestartPolicy) -> ProcessSpec {
    ProcessSpec {
        name: name.to_string(),
        path: format!("/bin/{}", name),
        arguments: Vec::new(),
        non_error_codes: Vec::new(),
        policy,
    }
}

fn exited(code: Option<i32>) -> Option<ExitStatus> {
    Some(ExitStatus { code })
}

#[test]
fn started_once_per_record() {
    let specs = vec![
        spec("alpha", RestartPolicy::Never),
        spec("beta", RestartPolicy::Always),
    ];
    let (registry, events) = Registry::new(specs, vec![100, 200]);
    assert_eq!(registry.len(), 2);
    assert_eq!(events.len(), 2);
    assert_eq!(events[0].kind, EventKind::Started);
    assert_eq!(events[0].name, "alpha");
    assert_eq!(events[0].pid, 100);
    assert_eq!(events[1].kind, EventKind::Started);
    assert_eq!(events[1].name, "beta");
    assert_eq!(events[1].pid, 200);
    assert!(registry.record_at(0).prev_status.is_none());
    assert!(registry.record_at(1).prev_status.is_none());
}

#[test]
fn empty_registry_emits_nothing() {
    let (registry, events) = Registry::new(Vec::new(), Vec::new());
    assert_eq!(registry.len(), 0);
    assert!(events.is_empty());
}

#[test]
fn always_policy_alternates() {
    // a task under Always that keeps exiting with code 0: OkStopped and
    // Restarted alternate forever
    let mut rec = SupervisedRecord::new(spec("task", RestartPolicy::Always), 10);
    let mut next_pid = 11;
    for round in 0..4 {
        let obs = exited(Some(0));
        assert!(rec.needs_relaunch(&obs), "round {round}");
        let old_pid = rec.pid;
        let events = rec.settle(obs, Some(next_pid));
        assert_eq!(events.len(), 2);
        assert_eq!(events[0].kind, EventKind::OkStopped);
        assert_eq!(events[0].pid, old_pid);
        assert_eq!(events[1].kind, EventKind::Restarted);
        assert_eq!(events[1].pid, next_pid);
        assert_eq!(rec.pid, next_pid);
        assert!(rec.prev_status.is_none());
        next_pid += 1;
    }
}

#[test]
fn never_policy_reports_once() {
    // a task under Never that exits with code 1: one OkStopped, then silence
    let mut rec = SupervisedRecord::new(spec("task", RestartPolicy::Never), 10);
    let obs = exited(Some(1));
    assert!(!rec.needs_relaunch(&obs));
    let events = rec.settle(obs, None);
    assert_eq!(events.len(), 1);
    assert_eq!(events[0].kind, EventKind::OkStopped);
    assert_eq!(events[0].name, "task");
    assert_eq!(events[0].pid, 10);
    for _ in 0..3 {
        let again = rec.settle(exited(Some(1)), None);
        assert!(again.is_empty());
        assert_eq!(rec.pid, 10);
    }
}

#[test]
fn on_error_policy_restarts_after_signal() {
    // a task under OnError killed by a signal: ErrStopped then Restarted,
    // and again if the relaunched process is signal-terminated too
    let mut rec = SupervisedRecord::new(spec("task", RestartPolicy::OnError), 10);
    let obs = exited(None);
    assert!(rec.needs_relaunch(&obs));
    let events = rec.settle(obs, Some(11));
    assert_eq!(events.len(), 2);
    assert_eq!(events[0].kind, EventKind::ErrStopped);
    assert_eq!(events[0].pid, 10);
    assert_eq!(events[1].kind, EventKind::Restarted);
    assert_eq!(events[1].pid, 11);
    let obs = exited(None);
    assert!(rec.needs_relaunch(&obs));
    let events = rec.settle(obs, Some(12));
    assert_eq!(events.len(), 2);
    assert_eq!(events[0].kind, EventKind::ErrStopped);
    assert_eq!(events[1].kind, EventKind::Restarted);
}

#[test]
fn on_error_policy_keeps_clean_exit() {
    // a task under OnError that exits with code 0: OkStopped and no
    // Restarted ever
    let mut rec = SupervisedRecord::new(spec("task", RestartPolicy::OnError), 10);
    let obs = exited(Some(0));
    assert!(!rec.needs_relaunch(&obs));
    let events = rec.settle(obs, None);
    assert_eq!(events.len(), 1);
    assert_eq!(events[0].kind, EventKind::OkStopped);
    for _ in 0..3 {
        let obs = exited(Some(0));
        assert!(!rec.needs_relaunch(&obs));
        assert!(rec.settle(obs, None).is_empty());
    }
}

#[test]
fn records_evolve_independently() {
    let specs = vec![
        spec("first", RestartPolicy::Never),
        spec("second", RestartPolicy::Always),
    ];
    let (mut registry, _) = Registry::new(specs, vec![100, 200]);
    // force the first record to terminate
    let events = registry.settle_at(0, exited(Some(3)), None);
    assert_eq!(events.len(), 1);
    assert_eq!(events[0].kind, EventKind::OkStopped);
    assert_eq!(events[0].name, "first");
    // the second record is untouched: still running, same process, and its
    // own polls report exactly what they would have
    assert_eq!(registry.record_at(1).pid, 200);
    assert!(registry.record_at(1).prev_status.is_none());
    assert!(registry.settle_at(1, None, None).is_empty());
    let events = registry.settle_at(1, exited(Some(0)), Some(201));
    assert_eq!(events.len(), 2);
    assert_eq!(events[0].kind, EventKind::OkStopped);
    assert_eq!(events[0].name, "second");
    assert_eq!(events[0].pid, 200);
    assert_eq!(events[1].kind, EventKind::Restarted);
    assert_eq!(events[1].pid, 201);
    // and the first record stayed as its own poll left it
    assert_eq!(registry.record_at(0).pid, 100);
    assert_eq!(registry.record_at(0).prev_status, Some(ExitStatus { code: Some(3) }));
}

#[test]
fn failed_relaunch_marks_record_exited() {
    // a relaunch the surroundings could not perform leaves the record
    // exited and silent, without touching any sibling
    let mut rec = SupervisedRecord::new(spec("task", RestartPolicy::Always), 10);
    let obs = exited(Some(0));
    assert!(rec.needs_relaunch(&obs));
    let events = rec.settle(obs, None);
    assert_eq!(events.len(), 1);
    assert_eq!(events[0].kind, EventKind::OkStopped);
    assert_eq!(rec.pid, 10);
    assert_eq!(rec.prev_status, Some(ExitStatus { code: Some(0) }));
    assert!(rec.settle(exited(Some(0)), None).is_empty());
}

#[test]
fn needs_relaunch_follows_policy() {
    let never = SupervisedRecord::new(spec("n", RestartPolicy::Never), 1);
    let on_error = SupervisedRecord::new(spec("o", RestartPolicy::OnError), 2);
    let always = SupervisedRecord::new(spec("a", RestartPolicy::Always), 3);
    let clean = exited(Some(0));
    let dirty = exited(None);
    let running = None;
    assert!(!never.needs_relaunch(&clean));
    assert!(!never.needs_relaunch(&dirty));
    assert!(!never.needs_relaunch(&running));
    assert!(!on_error.needs_relaunch(&clean));
    assert!(on_error.needs_relaunch(&dirty));
    assert!(!on_error.needs_relaunch(&running));
    assert!(always.needs_relaunch(&clean));
    assert!(always.needs_relaunch(&dirty));
    assert!(!always.needs_relaunch(&running));
}

#[test]
fn nonzero_exit_code_counts_as_ok_stop() {
    // classification looks only at the presence of an exit code, never at
    // the declared non-error-code set
    let mut sp = spec("task", RestartPolicy::OnError);
    sp.non_error_codes = vec![0];
    let mut rec = SupervisedRecord::new(sp, 10);
    let events = rec.settle(exited(Some(86)), None);
    assert_eq!(events.len(), 1);
    assert_eq!(events[0].kind, EventKind::OkStopped);
}
