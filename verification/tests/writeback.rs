use doasedit::error::ErrorKind;
use doasedit::event::Event;
use doasedit::file_handler::{write_file_back, Writeback, MAX_WRITE_ATTEMPTS};
use doasedit::startup::{check_helper, check_identity, exit_status, refuse_root, ROOT_UID};

fn exited(success: bool) -> Event {
    Event::Exited { success, output: Vec::new() }
}

fn failed(step: Writeback) -> ErrorKind {
    match step {
        Writeback::Failed(e) => e.kind,
        other => panic!("unexpected {:?}", other),
    }
}

#[test]
fn direct_write_is_a_file_operation() {
    assert_eq!(write_file_back(true, 0, &Event::Done), Writeback::Written);
    match write_file_back(true, 0, &Event::IoFailure("disk full".to_string())) {
        Writeback::Failed(e) => assert_eq!(e.to_string(), "disk full"),
        other => panic!("unexpected {:?}", other),
    }
    assert_eq!(failed(write_file_back(true, 0, &exited(false))), ErrorKind::Interrupted);
}

#[test]
fn privileged_write_that_succeeds_is_written() {
    for failures in 0..MAX_WRITE_ATTEMPTS {
        assert_eq!(write_file_back(false, failures, &exited(true)), Writeback::Written);
    }
}

#[test]
fn privileged_write_is_retried_twice() {
    assert_eq!(write_file_back(false, 0, &exited(false)), Writeback::Retry { failures: 1 });
    assert_eq!(write_file_back(false, 1, &exited(false)), Writeback::Retry { failures: 2 });
}

#[test]
fn third_refusal_exhausts_the_attempts() {
    let step = write_file_back(false, 2, &exited(false));
    match step {
        Writeback::Failed(e) => {
            assert_eq!(e.kind, ErrorKind::ThreeIncorrectPasswordAttempts);
            assert_eq!(e.to_string(), "3 incorrect password attempts");
        }
        other => panic!("unexpected {:?}", other),
    }
    assert_eq!(
        failed(write_file_back(false, 200, &exited(false))),
        ErrorKind::ThreeIncorrectPasswordAttempts
    );
}

#[test]
fn exactly_three_attempts_are_made() {
    let mut failures = 0;
    let mut attempts = 0;
    let last = loop {
        attempts += 1;
        match write_file_back(false, failures, &exited(false)) {
            Writeback::Retry { failures: again } => failures = again,
            done => break done,
        }
    };
    assert_eq!(attempts, 3);
    assert_eq!(failed(last), ErrorKind::ThreeIncorrectPasswordAttempts);
    assert_eq!(MAX_WRITE_ATTEMPTS, 3);
}

#[test]
fn success_on_the_third_attempt_counts() {
    let first = write_file_back(false, 0, &exited(false));
    assert_eq!(first, Writeback::Retry { failures: 1 });
    let second = write_file_back(false, 1, &exited(false));
    assert_eq!(second, Writeback::Retry { failures: 2 });
    assert_eq!(write_file_back(false, 2, &exited(true)), Writeback::Written);
}

#[test]
fn helper_that_does_not_run_ends_the_commit() {
    for failures in 0..MAX_WRITE_ATTEMPTS {
        let step = write_file_back(false, failures, &Event::SpawnFailure("gone".to_string()));
        assert_eq!(failed(step), ErrorKind::DoasUnavailable);
    }
}

#[test]
fn privileged_user_is_refused() {
    let e = refuse_root(ROOT_UID).unwrap_err();
    assert_eq!(e.kind, ErrorKind::RootUserNotAllowed);
    assert_eq!(e.to_string(), "using this program as root is not permitted");
    assert!(refuse_root(1).is_ok());
    assert!(refuse_root(1000).is_ok());
    assert!(refuse_root(u32::MAX).is_ok());
}

#[test]
fn identity_check_follows_the_effective_user() {
    let root = nix::unistd::geteuid().as_raw() == 0;
    assert_eq!(check_identity().is_err(), root);
}

#[test]
fn helper_probe_must_succeed() {
    assert!(check_helper(&exited(true)).is_ok());
    for event in [exited(false), Event::SpawnFailure("x".to_string()), Event::Done] {
        let e = check_helper(&event).unwrap_err();
        assert_eq!(e.kind, ErrorKind::DoasUnavailable);
        assert_eq!(e.to_string(), "unable to run 'doas'");
    }
}

#[test]
fn exit_status_reflects_failures() {
    assert_eq!(exit_status(0), 0);
    assert_eq!(exit_status(1), 1);
    assert_eq!(exit_status(7), 1);
}
