use lib_core::executor::{GroupRun, Phase, RunAction, RunEvent, MEDIA_CONCURRENCY};
use lib_core::progress::{JobInfo, Message, MonitorAction, MonitorEvent, Progress, ProgressMonitor};

fn names(v: &[&str]) -> Vec<String> {
    v.iter().map(|s| s.to_string()).collect()
}

/// Runs a group to the end, answering each action at once. Media file
/// `fail` exits with an error; every other one succeeds. Returns the media
/// indices started, in order.
fn drive(run: &mut GroupRun, monitor: &mut ProgressMonitor, fail: Option<usize>) -> Vec<usize> {
    let mut started = Vec::new();
    let mut queue = vec![RunEvent::DirsReady(true)];
    let mut finished = false;
    while let Some(ev) = queue.pop() {
        for action in run.step(ev) {
            match action {
                RunAction::CopySidecar(_) => queue.insert(0, RunEvent::SidecarCopied(true)),
                RunAction::StartMedia(i) => {
                    started.push(i);
                    let success = Some(i) != fail;
                    queue.insert(0, RunEvent::MediaExited { index: i, success, stderr: "bad input".to_string() });
                }
                RunAction::Report(m) => monitor.handle(m),
                RunAction::KillRunning => panic!("nothing was stopped"),
                RunAction::Finish => finished = true,
            }
        }
    }
    assert!(finished);
    started
}

fn final_snapshot(monitor: &mut ProgressMonitor) -> Vec<Progress> {
    match monitor.step(MonitorEvent::Tick) {
        MonitorAction::Publish(batch) => batch,
        _ => panic!("a tick publishes a snapshot"),
    }
}

fn group_a(monitor: &mut ProgressMonitor) -> GroupRun {
    monitor.handle(Message::Create { job_info: JobInfo::new("A".to_string(), 3, 2) });
    GroupRun::new("A".to_string(), names(&["a.xml", "b.xml"]), names(&["1.mp4", "2.mp4", "3.mp4"]))
}

#[test]
fn group_with_all_media_succeeding_completes() {
    let mut monitor = ProgressMonitor::new();
    let mut run = group_a(&mut monitor);
    let started = drive(&mut run, &mut monitor, None);
    assert_eq!(started, vec![0, 1, 2]);
    assert_eq!(run.phase(), Phase::Finished);
    assert_eq!(run.completed(), 3);
    assert_eq!(run.failed(), 0);
    let snap = final_snapshot(&mut monitor);
    assert_eq!(snap.len(), 1);
    assert_eq!(snap[0].folder(), "A");
    assert_eq!(snap[0].stage(), "Video");
    assert_eq!(snap[0].count(), 3);
    assert_eq!(snap[0].total(), 3);
    assert_eq!(snap[0].error_count(), 0);
    assert!(snap[0].done());
}

#[test]
fn group_with_failing_second_media_still_completes() {
    let mut monitor = ProgressMonitor::new();
    let mut run = group_a(&mut monitor);
    let started = drive(&mut run, &mut monitor, Some(1));
    assert_eq!(started, vec![0, 1, 2]);
    assert_eq!(run.completed(), 2);
    assert_eq!(run.failed(), 1);
    let snap = final_snapshot(&mut monitor);
    assert_eq!(snap[0].count(), 2);
    assert_eq!(snap[0].error_count(), 1);
    assert!(snap[0].done());
}

#[test]
fn at_most_two_transcoders_run_at_once() {
    let mut run = GroupRun::new("G".to_string(), Vec::new(), names(&["1", "2", "3", "4"]));
    let acts = run.step(RunEvent::DirsReady(true));
    let starts: Vec<usize> = acts
        .iter()
        .filter_map(|a| if let RunAction::StartMedia(i) = a { Some(*i) } else { None })
        .collect();
    assert_eq!(MEDIA_CONCURRENCY, 2);
    assert_eq!(starts, vec![0, 1]);
    let acts = run.step(RunEvent::MediaExited { index: 1, success: true, stderr: String::new() });
    assert_eq!(acts.len(), 2);
    assert!(matches!(acts[1], RunAction::StartMedia(2)));
}

#[test]
fn stop_kills_in_flight_and_starts_nothing_more() {
    let mut run = GroupRun::new("G".to_string(), Vec::new(), names(&["1", "2", "3", "4", "5"]));
    let acts = run.step(RunEvent::DirsReady(true));
    assert_eq!(acts.len(), 2);
    let acts = run.step(RunEvent::MediaExited { index: 0, success: true, stderr: String::new() });
    assert!(matches!(acts[1], RunAction::StartMedia(2)));
    let acts = run.step(RunEvent::StopRaised);
    assert_eq!(acts.len(), 3);
    assert!(matches!(acts[0], RunAction::KillRunning));
    match &acts[1] {
        RunAction::Report(Message::Done { folder_name }) => assert_eq!(folder_name, "G"),
        _ => panic!("the group is reported done"),
    }
    assert!(matches!(acts[2], RunAction::Finish));
    assert_eq!(run.phase(), Phase::Finished);
    for ev in [
        RunEvent::MediaExited { index: 1, success: true, stderr: String::new() },
        RunEvent::MediaExited { index: 2, success: false, stderr: String::new() },
        RunEvent::DirsReady(true),
        RunEvent::StopRaised,
    ] {
        assert!(run.step(ev).is_empty());
    }
    assert_eq!(run.completed(), 1);
}

#[test]
fn stop_during_copy_kills_nothing() {
    let mut run = GroupRun::new("G".to_string(), names(&["a.xml"]), names(&["1"]));
    let acts = run.step(RunEvent::DirsReady(true));
    assert!(matches!(acts[0], RunAction::CopySidecar(0)));
    let acts = run.step(RunEvent::StopRaised);
    assert_eq!(acts.len(), 2);
    assert!(matches!(acts[0], RunAction::Report(Message::Done { .. })));
    assert!(run.step(RunEvent::SidecarCopied(true)).is_empty());
}

#[test]
fn directory_failure_ends_the_group() {
    let mut run = GroupRun::new("G".to_string(), names(&["a.xml"]), names(&["1"]));
    let acts = run.step(RunEvent::DirsReady(false));
    assert_eq!(acts.len(), 2);
    assert!(matches!(acts[0], RunAction::Report(Message::Done { .. })));
    assert!(matches!(acts[1], RunAction::Finish));
    assert_eq!(run.phase(), Phase::Finished);
}

#[test]
fn sidecar_failure_ends_the_group() {
    let mut run = GroupRun::new("G".to_string(), names(&["a.xml", "b.xml"]), names(&["1"]));
    let _ = run.step(RunEvent::DirsReady(true));
    let acts = run.step(RunEvent::SidecarCopied(true));
    match &acts[0] {
        RunAction::Report(Message::Update { working_file, .. }) => assert_eq!(working_file, "a.xml"),
        _ => panic!("the copied sidecar is reported"),
    }
    assert!(matches!(acts[1], RunAction::CopySidecar(1)));
    let acts = run.step(RunEvent::SidecarCopied(false));
    assert_eq!(acts.len(), 2);
    assert_eq!(run.phase(), Phase::Finished);
}

#[test]
fn empty_group_finishes_at_once() {
    let mut run = GroupRun::new("G".to_string(), Vec::new(), Vec::new());
    let acts = run.step(RunEvent::DirsReady(true));
    assert_eq!(acts.len(), 2);
    assert!(matches!(acts[1], RunAction::Finish));
}

#[test]
fn failed_media_reports_its_stderr() {
    let mut run = GroupRun::new("G".to_string(), Vec::new(), names(&["1.mp4"]));
    let _ = run.step(RunEvent::DirsReady(true));
    let acts = run.step(RunEvent::MediaExited { index: 0, success: false, stderr: "oops".to_string() });
    match &acts[0] {
        RunAction::Report(Message::Failed { folder_name, working_file, cause }) => {
            assert_eq!(folder_name, "G");
            assert_eq!(working_file, "1.mp4");
            assert_eq!(cause, "oops");
        }
        _ => panic!("the failure is reported"),
    }
    assert!(matches!(acts[2], RunAction::Finish));
}
