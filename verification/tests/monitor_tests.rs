use doorways::catalog::Launcher;
use doorways::coordinator::Launched;
use doorways::monitor::{
    classify_exit, interpret_probe, probe_from_flag, ChildMonitor, ExitCheck, ExitClass,
    PollVerdict, ProbeFailure, ProbeResult, PROBE_FAILURE_CODE,
};
use doorways::status::{LaunchStatus, StatusStore};

fn launched(l: Launcher, id: &str) -> Launched {
    Launched { launcher: l, id: id.to_string() }
}

#[test]
fn status_absent_until_written() {
    let store = StatusStore::new();
    assert_eq!(store.get(0), None);
    assert_eq!(store.get(5), None);
    let mut store = store;
    store.set(3, LaunchStatus::Starting);
    assert_eq!(store.get(3), Some(LaunchStatus::Starting));
    // Indices never written still have no entry: absence, not a default.
    assert_eq!(store.get(5), None);
}

#[test]
fn accept_tracks_and_writes_starting() {
    let mut store = StatusStore::new();
    let mut mon = ChildMonitor::new();
    assert_eq!(mon.active_count(), 0);
    assert!(!mon.is_active(2));
    mon.accept(2, launched(Launcher::Twitch, "t1"), &mut store);
    assert_eq!(mon.active_count(), 1);
    assert!(mon.is_active(2));
    assert_eq!(store.get(2), Some(LaunchStatus::Starting));
    let ctx = mon.context_for(2).unwrap();
    assert_eq!(ctx.launcher, Launcher::Twitch);
    assert_eq!(ctx.id, "t1");
}

#[test]
fn still_running_stays_active_as_running() {
    let mut store = StatusStore::new();
    let mut mon = ChildMonitor::new();
    mon.accept(0, launched(Launcher::Epic, "e1"), &mut store);
    let c = classify_exit(&Launcher::Epic, &ExitCheck::StillRunning);
    assert_eq!(c, ExitClass::Decided(PollVerdict::Stay));
    mon.apply_verdict(0, PollVerdict::Stay, &mut store);
    assert_eq!(store.get(0), Some(LaunchStatus::Running));
    assert!(mon.is_active(0));
}

#[test]
fn clean_exit_without_probe_is_success() {
    let mut store = StatusStore::new();
    let mut mon = ChildMonitor::new();
    mon.accept(0, launched(Launcher::Twitch, "t1"), &mut store);
    let c = classify_exit(&Launcher::Twitch, &ExitCheck::Exited(0));
    let v = match c {
        ExitClass::Decided(v) => v,
        ExitClass::ProbeNeeded => panic!("no probe expected for this source"),
    };
    assert_eq!(v, PollVerdict::Leave(LaunchStatus::Success));
    mon.apply_verdict(0, v, &mut store);
    assert_eq!(store.get(0), Some(LaunchStatus::Success));
    assert!(!mon.is_active(0));
}

#[test]
fn probe_keeps_entry_running_until_inactive() {
    let mut store = StatusStore::new();
    let mut mon = ChildMonitor::new();
    mon.accept(7, launched(Launcher::Steam, "440"), &mut store);
    // The trampoline exits cleanly, but the companion client still shows the
    // title as running.
    let c = classify_exit(&Launcher::Steam, &ExitCheck::Exited(0));
    assert_eq!(c, ExitClass::ProbeNeeded);
    let v = interpret_probe(&Ok(ProbeResult::StillActive));
    assert_eq!(v, PollVerdict::Stay);
    mon.apply_verdict(7, v, &mut store);
    assert_eq!(store.get(7), Some(LaunchStatus::Running));
    assert!(mon.is_active(7));
    // A later probe reports the indicator cleared: the launch settles.
    let v = interpret_probe(&Ok(ProbeResult::Inactive));
    assert_eq!(v, PollVerdict::Leave(LaunchStatus::Success));
    mon.apply_verdict(7, v, &mut store);
    assert_eq!(store.get(7), Some(LaunchStatus::Success));
    assert!(!mon.is_active(7));
}

#[test]
fn nonzero_exit_settles_as_error_and_leaves() {
    let mut store = StatusStore::new();
    let mut mon = ChildMonitor::new();
    mon.accept(1, launched(Launcher::Epic, "e1"), &mut store);
    mon.apply_verdict(1, PollVerdict::Stay, &mut store);
    assert_eq!(store.get(1), Some(LaunchStatus::Running));
    let c = classify_exit(&Launcher::Epic, &ExitCheck::Exited(9));
    assert_eq!(c, ExitClass::Decided(PollVerdict::Leave(LaunchStatus::Error(9))));
    mon.apply_verdict(1, PollVerdict::Leave(LaunchStatus::Error(9)), &mut store);
    assert_eq!(store.get(1), Some(LaunchStatus::Error(9)));
    // The handle left the active set; no later pass can revert the status.
    assert!(!mon.is_active(1));
    assert_eq!(mon.active_count(), 0);
}

#[test]
fn settled_launch_never_reverts() {
    let mut store = StatusStore::new();
    let mut mon = ChildMonitor::new();
    mon.accept(4, launched(Launcher::Epic, "e1"), &mut store);
    mon.apply_verdict(4, PollVerdict::Leave(LaunchStatus::Error(2)), &mut store);
    assert_eq!(store.get(4), Some(LaunchStatus::Error(2)));
    // The entry left the active set; a stray verdict for it changes nothing.
    mon.apply_verdict(4, PollVerdict::Stay, &mut store);
    assert_eq!(store.get(4), Some(LaunchStatus::Error(2)));
    assert!(!mon.is_active(4));
}

#[test]
fn probe_failure_settles_with_sentinel_code() {
    let v = interpret_probe(&Err(ProbeFailure));
    assert_eq!(v, PollVerdict::Leave(LaunchStatus::Error(PROBE_FAILURE_CODE)));
    assert_eq!(PROBE_FAILURE_CODE, 1);
}

#[test]
fn probe_flag_interpretation() {
    assert_eq!(probe_from_flag(1), ProbeResult::StillActive);
    assert_eq!(probe_from_flag(0), ProbeResult::Inactive);
    assert_eq!(probe_from_flag(2), ProbeResult::Inactive);
}

#[test]
fn steam_needs_probe_only_on_clean_exit() {
    assert_eq!(
        classify_exit(&Launcher::Steam, &ExitCheck::StillRunning),
        ExitClass::Decided(PollVerdict::Stay)
    );
    assert_eq!(classify_exit(&Launcher::Steam, &ExitCheck::Exited(0)), ExitClass::ProbeNeeded);
    assert_eq!(
        classify_exit(&Launcher::Steam, &ExitCheck::Exited(2)),
        ExitClass::Decided(PollVerdict::Leave(LaunchStatus::Error(2)))
    );
}
