use lib_core::progress::{
    JobInfo, Message, MonitorAction, MonitorEvent, Progress, ProgressMonitor, ProgressTracker,
    Stage,
};

fn tracker(sidecars: usize, media: usize) -> ProgressTracker {
    ProgressTracker::new(JobInfo::new("G".to_string(), media, sidecars))
}

#[test]
fn job_info_accessors() {
    let j = JobInfo::new("241106B".to_string(), 3, 2);
    assert_eq!(j.folder_name(), "241106B");
    assert_eq!(j.total_video(), 3);
    assert_eq!(j.total_xml(), 2);
}

#[test]
fn progress_accessors() {
    let p = Progress::new("f".to_string(), "x.mp4".to_string(), 1, Stage::Video, 2, 3, true);
    assert_eq!(p.folder(), "f");
    assert_eq!(p.file(), "x.mp4");
    assert_eq!(p.count(), 1);
    assert_eq!(p.error_count(), 2);
    assert_eq!(p.total(), 3);
    assert_eq!(p.stage(), "Video");
    assert!(p.done());
    let q = Progress::new("f".to_string(), String::new(), 0, Stage::Xml, 0, 0, false);
    assert_eq!(q.stage(), "Xml");
    assert!(!q.done());
}

#[test]
fn fresh_tracker_reports_sidecar_stage() {
    let t = tracker(2, 3);
    let p = t.progress();
    assert_eq!(p.folder(), "G");
    assert_eq!(p.file(), "");
    assert_eq!(p.stage(), "Xml");
    assert_eq!(p.count(), 0);
    assert_eq!(p.total(), 2);
    assert_eq!(p.error_count(), 0);
    assert!(!p.done());
}

#[test]
fn sidecar_stage_advances_to_video_when_complete() {
    let mut t = tracker(2, 3);
    assert!(t.update_xml("a.xml".to_string()).is_ok());
    assert_eq!(t.progress().stage(), "Xml");
    assert_eq!(t.progress().count(), 1);
    assert!(t.update_xml("b.xml".to_string()).is_ok());
    let p = t.progress();
    assert_eq!(p.stage(), "Video");
    assert_eq!(p.count(), 0);
    assert_eq!(p.total(), 3);
    assert_eq!(p.file(), "b.xml");
}

#[test]
fn update_beyond_total_fails_and_counts_nothing() {
    let mut t = tracker(1, 1);
    assert!(t.update_xml("a.xml".to_string()).is_ok());
    assert!(t.update_xml("again.xml".to_string()).is_err());
    assert!(t.update_video("1.mp4".to_string()).is_ok());
    assert!(t.update_video("2.mp4".to_string()).is_err());
    let p = t.progress();
    assert_eq!(p.count(), 1);
    assert_eq!(p.file(), "1.mp4");
    // Both stages were full when the last request came: the tracker is done.
    assert!(p.done());
}

#[test]
fn counters_never_decrease_over_a_sequence() {
    let mut t = tracker(2, 2);
    let requests = [Stage::Video, Stage::Xml, Stage::Xml, Stage::Xml, Stage::Video, Stage::Video, Stage::Video];
    let mut last = (0u8, "Xml".to_string());
    for (i, s) in requests.iter().enumerate() {
        let _ = t.update(*s, format!("f{}", i));
        let p = t.progress();
        assert!(p.count() <= p.total());
        if last.1 == "Video" {
            assert_eq!(p.stage(), "Video");
            assert!(p.count() >= last.0);
        }
        last = (p.count(), p.stage().to_string());
    }
    assert_eq!(t.progress().count(), 2);
}

#[test]
fn set_done_and_record_error() {
    let mut t = tracker(0, 2);
    t.record_error("1.mp4".to_string(), "boom".to_string());
    t.record_error("2.mp4".to_string(), "boom".to_string());
    assert_eq!(t.progress().error_count(), 2);
    assert!(!t.progress().done());
    t.set_done();
    assert!(t.progress().done());
}

#[test]
fn zero_sidecars_stay_in_sidecar_stage() {
    let mut t = tracker(0, 1);
    assert!(t.update_xml("x".to_string()).is_err());
    assert!(t.update_video("1.mp4".to_string()).is_ok());
    let p = t.progress();
    assert_eq!(p.stage(), "Xml");
    assert_eq!(p.total(), 0);
}

fn create(name: &str, media: usize, sidecars: usize) -> Message {
    Message::Create { job_info: JobInfo::new(name.to_string(), media, sidecars) }
}

fn update(name: &str, file: &str, stage: Stage) -> Message {
    Message::Update { folder_name: name.to_string(), working_file: file.to_string(), action: stage }
}

fn tick(m: &mut ProgressMonitor) -> Vec<Progress> {
    match m.step(MonitorEvent::Tick) {
        MonitorAction::Publish(batch) => batch,
        _ => panic!("a tick publishes a snapshot"),
    }
}

#[test]
fn create_is_idempotent() {
    let mut m = ProgressMonitor::new();
    m.handle(create("A", 3, 2));
    m.handle(update("A", "a.xml", Stage::Xml));
    m.handle(create("A", 9, 9));
    let batch = m.snapshot();
    assert_eq!(batch.len(), 1);
    assert_eq!(batch[0].total(), 2);
    assert_eq!(batch[0].count(), 1);
}

#[test]
fn messages_for_unknown_groups_are_dropped() {
    let mut m = ProgressMonitor::new();
    m.handle(create("A", 1, 1));
    m.handle(update("B", "x.xml", Stage::Xml));
    m.handle(Message::Done { folder_name: "B".to_string() });
    m.handle(Message::Failed {
        folder_name: "B".to_string(),
        working_file: "x".to_string(),
        cause: "c".to_string(),
    });
    let batch = m.snapshot();
    assert_eq!(batch.len(), 1);
    assert_eq!(batch[0].folder(), "A");
    assert_eq!(batch[0].count(), 0);
    assert_eq!(batch[0].error_count(), 0);
    assert!(!batch[0].done());
}

#[test]
fn snapshots_follow_creation_order() {
    let mut m = ProgressMonitor::new();
    m.handle(create("B", 1, 0));
    m.handle(create("A", 2, 1));
    m.handle(Message::Done { folder_name: "B".to_string() });
    let batch = tick(&mut m);
    assert_eq!(batch.len(), 2);
    assert_eq!(batch[0].folder(), "B");
    assert!(batch[0].done());
    assert_eq!(batch[1].folder(), "A");
    assert!(!batch[1].done());
}

#[test]
fn ticks_do_not_change_message_processing() {
    let msgs = vec![
        create("A", 2, 1),
        update("A", "a.xml", Stage::Xml),
        update("A", "1.mp4", Stage::Video),
        Message::Done { folder_name: "A".to_string() },
    ];
    let mut quiet = ProgressMonitor::new();
    for msg in msgs.clone() {
        assert!(matches!(quiet.step(MonitorEvent::Received(msg)), MonitorAction::Continue));
    }
    let mut ticking = ProgressMonitor::new();
    for msg in msgs {
        // Snapshots are produced and never taken by anyone.
        let _ = tick(&mut ticking);
        let _ = tick(&mut ticking);
        assert!(matches!(ticking.step(MonitorEvent::Received(msg)), MonitorAction::Continue));
    }
    let a = tick(&mut quiet);
    let b = tick(&mut ticking);
    assert_eq!(a.len(), 1);
    assert_eq!(b.len(), 1);
    assert_eq!(a[0].count(), b[0].count());
    assert_eq!(a[0].count(), 1);
    assert_eq!(a[0].stage(), b[0].stage());
    assert_eq!(a[0].done(), b[0].done());
    assert_eq!(a[0].file(), b[0].file());
}

#[test]
fn closed_mailbox_stops_the_actor() {
    let mut m = ProgressMonitor::new();
    assert!(matches!(m.step(MonitorEvent::MailboxClosed), MonitorAction::Stop));
    assert!(tick(&mut m).is_empty());
}
