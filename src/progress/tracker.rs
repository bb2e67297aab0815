//! The mutable progress accumulator of one group.
use vstd::prelude::*;

use crate::progress::types::{JobInfo, JobInfoView, Progress, ProgressView};

verus! {

/// The two ordered phases of a group: copying sidecars, then transcoding.
#[derive(Debug, Clone, Copy, PartialEq, Eq, Structural)]
pub enum Stage {
    Xml,
    Video,
}

/// Lifecycle of a tracker: untouched, under way, finished.
#[derive(Debug, Clone, Copy, PartialEq, Eq, Structural)]
pub enum JobStatus {
    Starting,
    Pending,
    Done,
}

/// One failed media file and the cause reported for it.
#[derive(Debug)]
pub struct ErrorInfo {
    file: String,
    cause: String,
}

/// Progress of one group, owned by the progress actor.
#[derive(Debug)]
pub struct ProgressTracker {
    job_info: JobInfo,
    current_file: String,
    current_xml: u32,
    current_video: u32,
    status: JobStatus,
    stage: Stage,
    errored: Vec<ErrorInfo>,
}

/// Mathematical view of a [`ProgressTracker`].
pub struct TrackerView {
    pub folder: Seq<char>,
    pub total_xml: u32,
    pub total_video: u32,
    pub xml: u32,
    pub video: u32,
    pub stage: Stage,
    pub status: JobStatus,
    pub errors: nat,
    pub file: Seq<char>,
}

impl View for ProgressTracker {
    type V = TrackerView;

    closed spec fn view(&self) -> TrackerView {
        TrackerView {
            folder: self.job_info@.folder_name,
            total_xml: self.job_info@.total_xml,
            total_video: self.job_info@.total_video,
            xml: self.current_xml,
            video: self.current_video,
            stage: self.stage,
            status: self.status,
            errors: self.errored@.len(),
            file: self.current_file@,
        }
    }
}

/// Counts never exceed their totals, and the stage is `Video` exactly once
/// a non-empty sidecar list has been copied completely.
pub open spec fn tracker_wf(t: TrackerView) -> bool {
    &&& t.xml <= t.total_xml
    &&& t.video <= t.total_video
    &&& (t.stage == Stage::Video <==> (t.total_xml > 0 && t.xml == t.total_xml))
}

/// A fresh tracker for the group described by `job`.
pub open spec fn initial_tracker(job: JobInfoView) -> TrackerView {
    TrackerView {
        folder: job.folder_name,
        total_xml: job.total_xml,
        total_video: job.total_video,
        xml: 0,
        video: 0,
        stage: Stage::Xml,
        status: JobStatus::Pending,
        errors: 0,
        file: Seq::empty(),
    }
}

/// Whether the counter of `stage` has reached its total.
pub open spec fn stage_complete(t: TrackerView, stage: Stage) -> bool {
    match stage {
        Stage::Xml => t.xml == t.total_xml,
        Stage::Video => t.video == t.total_video,
    }
}

/// The status after an update request is seen, before it is applied.
pub open spec fn touched_status(t: TrackerView) -> JobStatus {
    if t.xml == t.total_xml && t.video == t.total_video {
        JobStatus::Done
    } else if t.status == JobStatus::Pending {
        JobStatus::Starting
    } else {
        t.status
    }
}

/// The tracker after `update(stage, file)`, whether or not it succeeded.
pub open spec fn after_update(t: TrackerView, stage: Stage, file: Seq<char>) -> TrackerView {
    let status = touched_status(t);
    if stage_complete(t, stage) {
        TrackerView { status, ..t }
    } else {
        match stage {
            Stage::Xml => TrackerView {
                status,
                xml: (t.xml + 1) as u32,
                stage: if t.xml + 1 == t.total_xml { Stage::Video } else { t.stage },
                file,
                ..t
            },
            Stage::Video => TrackerView { status, video: (t.video + 1) as u32, file, ..t },
        }
    }
}

/// The snapshot that `progress` reports for a tracker: the counter and total
/// of its current stage, narrowed to `u8` as an `as` cast does.
pub open spec fn snapshot_of(t: TrackerView) -> ProgressView {
    ProgressView {
        folder: t.folder,
        file: t.file,
        count: match t.stage {
            Stage::Xml => t.xml as u8,
            Stage::Video => t.video as u8,
        },
        stage: t.stage,
        error_count: t.errors as u8,
        total: match t.stage {
            Stage::Xml => t.total_xml as u8,
            Stage::Video => t.total_video as u8,
        },
        done: t.status == JobStatus::Done,
    }
}

/// The tracker after the update requests of `reqs`, applied in order.
pub open spec fn apply_updates(t: TrackerView, reqs: Seq<(Stage, Seq<char>)>) -> TrackerView
    decreases reqs.len(),
{
    if reqs.len() == 0 {
        t
    } else {
        apply_updates(after_update(t, reqs[0].0, reqs[0].1), reqs.subrange(1, reqs.len() as int))
    }
}

/// One update keeps a tracker well formed, never lowers a counter and never
/// moves the stage back from `Video` to `Xml`.
pub proof fn lemma_update_monotone(t: TrackerView, stage: Stage, file: Seq<char>)
    requires
        tracker_wf(t),
    ensures
        tracker_wf(after_update(t, stage, file)),
        after_update(t, stage, file).xml >= t.xml,
        after_update(t, stage, file).video >= t.video,
        after_update(t, stage, file).total_xml == t.total_xml,
        after_update(t, stage, file).total_video == t.total_video,
        t.stage == Stage::Video ==> after_update(t, stage, file).stage == Stage::Video,
{
}

/// Monotonicity: after any sequence of updates the sidecar and media counters
/// have not decreased and do not exceed their totals, and a tracker that had
/// reached the `Video` stage is still there.
pub proof fn lemma_updates_monotone(t: TrackerView, reqs: Seq<(Stage, Seq<char>)>)
    requires
        tracker_wf(t),
    ensures
        tracker_wf(apply_updates(t, reqs)),
        apply_updates(t, reqs).xml >= t.xml,
        apply_updates(t, reqs).video >= t.video,
        apply_updates(t, reqs).xml <= t.total_xml,
        apply_updates(t, reqs).video <= t.total_video,
        t.stage == Stage::Video ==> apply_updates(t, reqs).stage == Stage::Video,
    decreases reqs.len(),
{
    if reqs.len() > 0 {
        let next = after_update(t, reqs[0].0, reqs[0].1);
        lemma_update_monotone(t, reqs[0].0, reqs[0].1);
        lemma_updates_monotone(next, reqs.subrange(1, reqs.len() as int));
    }
}

impl ProgressTracker {
    pub open spec fn wf(&self) -> bool {
        tracker_wf(self@)
    }

    pub fn new(job_info: JobInfo) -> (r: Self)
        ensures
            r@ == initial_tracker(job_info@),
            r.wf(),
    {
        ProgressTracker {
            job_info,
            status: JobStatus::Pending,
            errored: Vec::new(),
            current_xml: 0,
            current_video: 0,
            stage: Stage::Xml,
            current_file: String::new(),
        }
    }

    pub fn folder_name(&self) -> (r: String)
        ensures
            r@ == self@.folder,
    {
        self.job_info.folder_name()
    }

    pub fn progress(&self) -> (r: Progress)
        ensures
            r@ == snapshot_of(self@),
    {
        let (count, total) = match self.stage {
            Stage::Xml => (self.current_xml, self.job_info.total_xml()),
            Stage::Video => (self.current_video, self.job_info.total_video()),
        };
        Progress::new(
            self.job_info.folder_name(),
            self.current_file.clone(),
            count as u8,
            self.stage,
            self.errored.len() as u8,
            total as u8,
            self.status == JobStatus::Done,
        )
    }

    /// Counts one finished file of `update_request`'s stage. Fails, counting
    /// nothing, when that stage's counter already equals its total.
    pub fn update(&mut self, update_request: Stage, working_file: String) -> (r: Result<(), String>)
        requires
            old(self).wf(),
        ensures
            final(self).wf(),
            final(self)@ == after_update(old(self)@, update_request, working_file@),
            r is Err <==> stage_complete(old(self)@, update_request),
    {
        if self.status == JobStatus::Pending {
            self.status = JobStatus::Starting;
        }
        if self.current_video == self.job_info.total_video()
            && self.current_xml == self.job_info.total_xml() {
            self.status = JobStatus::Done;
        }
        match update_request {
            Stage::Xml => {
                if self.current_xml == self.job_info.total_xml() {
                    return Err("XML COPYING HAD BEEN DONE".to_owned());
                }
                self.current_xml = self.current_xml + 1;
                if self.current_xml == self.job_info.total_xml() {
                    self.stage = Stage::Video;
                }
            },
            Stage::Video => {
                if self.current_video == self.job_info.total_video() {
                    return Err("The things had been Done".to_owned());
                }
                self.current_video = self.current_video + 1;
            },
        }
        self.current_file = working_file;
        Ok(())
    }

    pub fn update_xml(&mut self, working_file: String) -> (r: Result<(), String>)
        requires
            old(self).wf(),
        ensures
            final(self).wf(),
            final(self)@ == after_update(old(self)@, Stage::Xml, working_file@),
            r is Err <==> stage_complete(old(self)@, Stage::Xml),
    {
        self.update(Stage::Xml, working_file)
    }

    pub fn update_video(&mut self, working_file: String) -> (r: Result<(), String>)
        requires
            old(self).wf(),
        ensures
            final(self).wf(),
            final(self)@ == after_update(old(self)@, Stage::Video, working_file@),
            r is Err <==> stage_complete(old(self)@, Stage::Video),
    {
        self.update(Stage::Video, working_file)
    }

    pub fn set_done(&mut self)
        requires
            old(self).wf(),
        ensures
            final(self).wf(),
            final(self)@ == (TrackerView { status: JobStatus::Done, ..old(self)@ }),
    {
        self.status = JobStatus::Done;
    }

    /// Records one failed file with its cause; counters are untouched.
    pub fn record_error(&mut self, file: String, cause: String)
        requires
            old(self).wf(),
        ensures
            final(self).wf(),
            final(self)@ == (TrackerView { errors: old(self)@.errors + 1, ..old(self)@ }),
    {
        self.errored.push(ErrorInfo { file, cause });
    }
}

} // verus!
