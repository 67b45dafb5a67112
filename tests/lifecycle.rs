use zcash_local_net::{
    graceful_stop_follow_up, LaunchState, Lifecycle, Process, Readiness, StopAction, StopFollowUp,
};

fn ready(kind: Process) -> Lifecycle {
    let mut l = Lifecycle::new(kind);
    assert_eq!(l.state, LaunchState::NotStarted);
    l.spawned();
    assert_eq!(l.state, LaunchState::Spawned);
    l.record(&Readiness::Pending);
    assert_eq!(l.state, LaunchState::Spawned);
    l.record(&Readiness::Ready);
    assert_eq!(l.state, LaunchState::Ready);
    l
}

#[test]
fn stop_twice_acts_once() {
    let mut l = ready(Process::Zainod);
    assert_eq!(l.stop(), StopAction::Kill);
    assert_eq!(l.state, LaunchState::Stopped);
    assert_eq!(l.stop(), StopAction::Nothing);
    assert_eq!(l.state, LaunchState::Stopped);
}

#[test]
fn validator_stops_through_its_tool() {
    let mut l = ready(Process::Zcashd);
    assert_eq!(l.stop(), StopAction::GracefulViaCli);
    assert_eq!(l.stop(), StopAction::Nothing);
    assert_eq!(graceful_stop_follow_up(true), StopFollowUp::AwaitExit);
    assert_eq!(graceful_stop_follow_up(false), StopFollowUp::Kill);
}

#[test]
fn light_node_is_killed() {
    let mut l = ready(Process::Lightwalletd);
    assert_eq!(l.stop(), StopAction::Kill);
}

#[test]
fn failed_launch_has_nothing_to_stop() {
    let mut l = Lifecycle::new(Process::Zcashd);
    l.spawned();
    l.record(&Readiness::Aborted);
    assert_eq!(l.state, LaunchState::Failed);
    assert_eq!(l.stop(), StopAction::Nothing);
    assert_eq!(l.state, LaunchState::Failed);
}

#[test]
fn process_names_and_files() {
    assert_eq!(Process::Zcashd.name(), "zcashd");
    assert_eq!(Process::Zainod.name(), "zainod");
    assert_eq!(Process::Lightwalletd.name(), "lightwalletd");
    assert_eq!(Process::Lightwalletd.default_binary(), "lightwalletd");
    assert_eq!(Process::Zcashd.config_filename(), "zcash.conf");
    assert_eq!(Process::Zainod.config_filename(), "zindexer.toml");
    assert_eq!(Process::Lightwalletd.config_filename(), "lightwalletd.yml");
    assert_eq!(Process::Zcashd.error_marker(), "Error:");
    assert_eq!(Process::Zcashd.extra_log(), None);
    assert_eq!(Process::Lightwalletd.extra_log(), Some("lwd.log"));
}
