use zcash_local_net::{
    contains_marker, poll_readiness, LaunchError, Process, Readiness, ReadinessCriteria,
};

fn zcashd_criteria() -> ReadinessCriteria {
    ReadinessCriteria::for_process(Process::Zcashd)
}

#[test]
fn ready_when_success_marker_amid_other_output() {
    let stdout = "starting\nloading blocks\ninit message: Done loading\nmore output";
    let verdict = poll_readiness(Process::Zcashd, None, stdout, "warning: slow", None, &zcashd_criteria());
    assert!(matches!(verdict, Readiness::Ready));
}

#[test]
fn pending_without_any_marker() {
    let verdict = poll_readiness(Process::Zcashd, None, "init message: Done", "", None, &zcashd_criteria());
    assert!(matches!(verdict, Readiness::Pending));
}

#[test]
fn exited_process_fails_with_captured_logs() {
    let stdout = "partial output\n";
    let stderr = "something broke\n";
    let verdict = poll_readiness(Process::Zainod, Some(256), stdout, stderr, None, &ReadinessCriteria::for_process(Process::Zainod));
    match verdict {
        Readiness::Failed(LaunchError::ProcessFailed { process_name, exit_status, stdout: out, stderr: err }) => {
            assert_eq!(process_name, "zainod");
            assert_eq!(exit_status, 256);
            assert_eq!(out, stdout);
            assert_eq!(err, stderr);
        }
        _ => panic!("expected a launch failure"),
    }
}

#[test]
fn exit_wins_over_success_marker() {
    let verdict = poll_readiness(Process::Zainod, Some(0), "Server Ready.", "", None, &ReadinessCriteria::for_process(Process::Zainod));
    assert!(matches!(verdict, Readiness::Failed(_)));
}

#[test]
fn error_marker_in_stderr_aborts() {
    let verdict = poll_readiness(Process::Zcashd, None, "init message: Done loading", "Error: cannot bind", None, &zcashd_criteria());
    assert!(matches!(verdict, Readiness::Aborted));
}

#[test]
fn error_marker_in_stdout_aborts() {
    let verdict = poll_readiness(Process::Zainod, None, "Error: no validator", "", None, &ReadinessCriteria::for_process(Process::Zainod));
    assert!(matches!(verdict, Readiness::Aborted));
}

#[test]
fn lightwalletd_ready_from_its_own_log() {
    let criteria = ReadinessCriteria::for_process(Process::Lightwalletd);
    assert_eq!(criteria.extra_log.as_deref(), Some("lwd.log"));
    let log = "{\"msg\":\"Starting insecure no-TLS (plaintext) server\"}";
    let verdict = poll_readiness(Process::Lightwalletd, None, "", "", Some(log), &criteria);
    assert!(matches!(verdict, Readiness::Ready));
    let verdict = poll_readiness(Process::Lightwalletd, None, "", "", Some("starting"), &criteria);
    assert!(matches!(verdict, Readiness::Pending));
}

#[test]
fn criteria_per_process() {
    let c = ReadinessCriteria::for_process(Process::Zainod);
    assert_eq!(c.success_marker, "Server Ready.");
    assert_eq!(c.error_marker, "Error:");
    assert!(c.extra_log.is_none());
    assert_eq!(zcashd_criteria().success_marker, "init message: Done loading");
}

#[test]
fn marker_search_edges() {
    assert!(contains_marker("abc", ""));
    assert!(contains_marker("", ""));
    assert!(!contains_marker("ab", "abc"));
    assert!(contains_marker("xxabc", "abc"));
    assert!(!contains_marker("Abc", "abc"));
    assert!(contains_marker("né Error: é", "Error: é"));
    assert!(!contains_marker("aab", "aaa"));
}
