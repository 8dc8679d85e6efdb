use autobuild::config::{config_source, Config, ConfigSource};
use autobuild::notify::Severity;
use autobuild::supervisor::{cancel_notice, run_notice, start_notice, ProcessSlot, RunOutcome, SlotState};
use autobuild::sync::{sync_notice, SyncGuard, SyncOutcome, SyncStage, SyncStep};
use autobuild::text::{decimal_string, seconds_string};
use autobuild::watch::{after_build, after_publish, after_sync, CycleStep};

fn run(step: SyncStep) -> SyncStage {
    match step {
        SyncStep::Run(s) => s,
        SyncStep::Finish(o) => panic!("attempt finished early: {:?}", o),
    }
}

fn finish(step: SyncStep) -> SyncOutcome {
    match step {
        SyncStep::Finish(o) => o,
        SyncStep::Run(s) => panic!("attempt asks for {:?}", s),
    }
}

#[test]
fn sync_while_in_progress_is_skipped() {
    let mut g = SyncGuard::new();
    assert_eq!(run(g.begin()), SyncStage::Fetch);
    assert!(g.is_syncing());
    assert!(matches!(finish(g.begin()), SyncOutcome::Skipped));
    assert!(g.is_syncing());
    assert!(sync_notice(&SyncOutcome::Skipped, "main").is_none());
}

#[test]
fn equal_heads_give_no_change_and_no_build() {
    let mut g = SyncGuard::new();
    assert_eq!(run(g.begin()), SyncStage::Fetch);
    assert_eq!(run(g.fetched(true, "")), SyncStage::ReadHeads);
    let out = finish(g.heads_read(Some("abc123\n"), Some("  abc123")));
    assert!(matches!(out, SyncOutcome::NoChange));
    assert!(!g.is_syncing());
    assert_eq!(after_sync(&out), CycleStep::Sleep);
    let n = sync_notice(&out, "main").unwrap();
    assert_eq!(n.severity, Severity::Info);
    assert_eq!(n.message, "No new changes on main");
}

#[test]
fn new_commits_pull_build_and_publish() {
    let mut g = SyncGuard::new();
    run(g.begin());
    run(g.fetched(true, ""));
    assert_eq!(run(g.heads_read(Some("aaa\n"), Some("bbb\n"))), SyncStage::Pull);
    assert!(g.is_syncing());
    let out = finish(g.pulled(true, ""));
    assert!(!g.is_syncing());
    let n = sync_notice(&out, "dev").unwrap();
    assert_eq!(n.severity, Severity::Success);
    assert_eq!(n.message, "Successfully pulled new changes from dev");
    assert_eq!(after_sync(&out), CycleStep::Build);
    let build = RunOutcome::from_exit(true, 1234, "built\n".to_string(), String::new());
    let nb = run_notice("npm run build", &build);
    assert_eq!(nb.severity, Severity::Success);
    assert_eq!(nb.message, "Command executed successfully: npm run build\nDuration: 1.23 seconds\nOutput:\nbuilt\n");
    assert_eq!(after_build(&build), CycleStep::Publish);
    let publish = RunOutcome::from_exit(true, 5, String::new(), String::new());
    let np = run_notice("npm run publish", &publish);
    assert_eq!(np.severity, Severity::Success);
    assert_eq!(np.message, "Command executed successfully: npm run publish\nDuration: 0.01 seconds\nOutput:\n");
    assert_eq!(after_publish(&publish), CycleStep::Sleep);
}

#[test]
fn failed_build_reports_stderr_and_skips_publish() {
    let build = RunOutcome::from_exit(false, 10, "partial".to_string(), "boom".to_string());
    let n = run_notice("make", &build);
    assert_eq!(n.severity, Severity::Error);
    assert_eq!(n.message, "Command execution failed: make\nError:\nboom");
    assert_eq!(after_build(&build), CycleStep::Sleep);
}

#[test]
fn spawn_failure_is_reported_as_failure() {
    let out = RunOutcome::spawn_error("No such file".to_string());
    assert!(!out.is_success());
    let n = run_notice("nope", &out);
    assert_eq!(n.severity, Severity::Error);
    assert_eq!(n.message, "Command execution failed: nope\nError:\nNo such file");
}

#[test]
fn fetch_failure_releases_guard() {
    let mut g = SyncGuard::new();
    run(g.begin());
    let out = finish(g.fetched(false, "no remote"));
    assert!(!g.is_syncing());
    match &out {
        SyncOutcome::Failed(e) => assert_eq!(e, "Git fetch failed: no remote"),
        _ => panic!("expected a failure"),
    }
    let n = sync_notice(&out, "main").unwrap();
    assert_eq!(n.severity, Severity::Error);
    assert_eq!(after_sync(&out), CycleStep::Sleep);
    assert_eq!(run(g.begin()), SyncStage::Fetch);
}

#[test]
fn unreadable_heads_fail() {
    let mut g = SyncGuard::new();
    run(g.begin());
    run(g.fetched(true, ""));
    match finish(g.heads_read(None, Some("abc"))) {
        SyncOutcome::Failed(e) => assert_eq!(e, "Failed to get commit hashes"),
        _ => panic!("expected a failure"),
    }
    assert!(!g.is_syncing());
}

#[test]
fn pull_failure_releases_guard() {
    let mut g = SyncGuard::new();
    run(g.begin());
    run(g.fetched(true, ""));
    run(g.heads_read(Some("a"), Some("b")));
    match finish(g.pulled(false, "conflict")) {
        SyncOutcome::Failed(e) => assert_eq!(e, "Git pull failed: conflict"),
        _ => panic!("expected a failure"),
    }
    assert!(!g.is_syncing());
}

#[test]
fn second_run_signals_first_process() {
    let mut slot = ProcessSlot::new();
    assert_eq!(slot.begin_run(), None);
    slot.spawned(41);
    assert_eq!(slot.state(), SlotState::Running(41));
    assert_eq!(slot.begin_run(), Some(41));
    assert_eq!(slot.state(), SlotState::Terminating(41));
    slot.spawned(42);
    assert_eq!(slot.state(), SlotState::Running(42));
    assert!(!slot.finished(41));
    assert_eq!(slot.state(), SlotState::Running(42));
    assert!(slot.finished(42));
    assert_eq!(slot.state(), SlotState::Idle);
}

#[test]
fn spawn_failure_leaves_slot_idle() {
    let mut slot = ProcessSlot::new();
    slot.spawned(7);
    assert_eq!(slot.begin_run(), Some(7));
    slot.spawn_failed();
    assert_eq!(slot.state(), SlotState::Idle);
}

#[test]
fn run_notices() {
    let c = cancel_notice();
    assert_eq!(c.severity, Severity::Info);
    assert_eq!(c.message, "Previous command has been cancelled");
    let s = start_notice("ls -l");
    assert_eq!(s.message, "Starting command execution: ls -l");
}

#[test]
fn number_formatting() {
    assert_eq!(decimal_string(0), "0");
    assert_eq!(decimal_string(7), "7");
    assert_eq!(decimal_string(10), "10");
    assert_eq!(decimal_string(18446744073709551615), "18446744073709551615");
    assert_eq!(seconds_string(0), "0.00");
    assert_eq!(seconds_string(4), "0.00");
    assert_eq!(seconds_string(5), "0.01");
    assert_eq!(seconds_string(1995), "2.00");
    assert_eq!(seconds_string(61234), "61.23");
    assert_eq!(seconds_string(18446744073709551615), "18446744073709551.62");
}

#[test]
fn config_defaults_and_source() {
    let c = Config::default();
    assert_eq!(c.repository, ".");
    assert_eq!(c.build, "npm run build");
    assert_eq!(c.publish, "npm run publish");
    assert_eq!(c.branch, "main");
    assert_eq!(c.interval, 10);
    assert_eq!(c.webhook.url, "");
    assert_eq!(c.webhook.prefix, "");
    assert_eq!(c.webhook.message_interval, 60);
    assert!(matches!(config_source(Some("my.json"), true), ConfigSource::File(f) if f == "my.json"));
    assert!(matches!(config_source(None, true), ConfigSource::File(f) if f == "autobuild.json"));
    assert!(matches!(config_source(None, false), ConfigSource::Defaults));
}
