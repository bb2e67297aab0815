//! Plain data exchanged between the executors, the progress actor and the
//! consumers of snapshots.
use vstd::prelude::*;

use crate::progress::tracker::Stage;

verus! {

/// What a group looked like when it was admitted: its name and how many
/// media and sidecar files it holds.
#[derive(Debug, Clone)]
pub struct JobInfo {
    folder_name: String,
    total_video: u32,
    total_xml: u32,
}

/// Mathematical view of a [`JobInfo`].
pub struct JobInfoView {
    pub folder_name: Seq<char>,
    pub total_video: u32,
    pub total_xml: u32,
}

impl View for JobInfo {
    type V = JobInfoView;

    closed spec fn view(&self) -> JobInfoView {
        JobInfoView {
            folder_name: self.folder_name@,
            total_video: self.total_video,
            total_xml: self.total_xml,
        }
    }
}

impl JobInfo {
    /// Counts are stored as `u32`; larger counts wrap as an `as` cast does.
    pub fn new(folder_name: String, total_video: usize, total_xml: usize) -> (r: Self)
        ensures
            r@.folder_name == folder_name@,
            r@.total_video == total_video as u32,
            r@.total_xml == total_xml as u32,
    {
        JobInfo { folder_name, total_video: total_video as u32, total_xml: total_xml as u32 }
    }

    pub fn folder_name(&self) -> (r: String)
        ensures
            r@ == self@.folder_name,
    {
        self.folder_name.clone()
    }

    pub fn total_video(&self) -> (r: u32)
        ensures
            r == self@.total_video,
    {
        self.total_video
    }

    pub fn total_xml(&self) -> (r: u32)
        ensures
            r == self@.total_xml,
    {
        self.total_xml
    }
}

/// A request to the progress actor.
#[derive(Debug, Clone)]
pub enum Message {
    /// Start tracking a group.
    Create { job_info: JobInfo },
    /// One file of `action`'s stage finished in `folder_name`.
    Update { folder_name: String, working_file: String, action: Stage },
    /// One media file of `folder_name` failed, with its cause.
    Failed { folder_name: String, working_file: String, cause: String },
    /// The group's executor has finished.
    Done { folder_name: String },
}

/// Mathematical view of a [`Message`].
pub enum MessageView {
    Create { job: JobInfoView },
    Update { folder: Seq<char>, file: Seq<char>, stage: Stage },
    Failed { folder: Seq<char>, file: Seq<char> },
    Done { folder: Seq<char> },
}

impl View for Message {
    type V = MessageView;

    open spec fn view(&self) -> MessageView {
        match self {
            Message::Create { job_info } => MessageView::Create { job: job_info@ },
            Message::Update { folder_name, working_file, action } => MessageView::Update {
                folder: folder_name@,
                file: working_file@,
                stage: *action,
            },
            Message::Failed { folder_name, working_file, .. } => MessageView::Failed {
                folder: folder_name@,
                file: working_file@,
            },
            Message::Done { folder_name } => MessageView::Done { folder: folder_name@ },
        }
    }
}

/// An immutable snapshot of one group's progress.
#[derive(Clone, Debug)]
pub struct Progress {
    folder: String,
    file: String,
    count: u8,
    stage: Stage,
    error_count: u8,
    total: u8,
    done: bool,
}

/// Mathematical view of a [`Progress`].
pub struct ProgressView {
    pub folder: Seq<char>,
    pub file: Seq<char>,
    pub count: u8,
    pub stage: Stage,
    pub error_count: u8,
    pub total: u8,
    pub done: bool,
}

impl View for Progress {
    type V = ProgressView;

    closed spec fn view(&self) -> ProgressView {
        ProgressView {
            folder: self.folder@,
            file: self.file@,
            count: self.count,
            stage: self.stage,
            error_count: self.error_count,
            total: self.total,
            done: self.done,
        }
    }
}

pub open spec fn stage_name(stage: Stage) -> Seq<char> {
    match stage {
        Stage::Xml => "Xml"@,
        Stage::Video => "Video"@,
    }
}

impl Progress {
    pub fn new(
        folder: String,
        file: String,
        count: u8,
        stage: Stage,
        error_count: u8,
        total: u8,
        done: bool,
    ) -> (r: Self)
        ensures
            r@ == (ProgressView {
                folder: folder@,
                file: file@,
                count,
                stage,
                error_count,
                total,
                done,
            }),
    {
        Progress { folder, file, count, stage, error_count, total, done }
    }

    pub fn folder(&self) -> (r: String)
        ensures
            r@ == self@.folder,
    {
        self.folder.clone()
    }

    pub fn file(&self) -> (r: String)
        ensures
            r@ == self@.file,
    {
        self.file.clone()
    }

    pub fn total(&self) -> (r: u8)
        ensures
            r == self@.total,
    {
        self.total
    }

    pub fn count(&self) -> (r: u8)
        ensures
            r == self@.count,
    {
        self.count
    }

    pub fn error_count(&self) -> (r: u8)
        ensures
            r == self@.error_count,
    {
        self.error_count
    }

    /// The stage's display name: `"Xml"` or `"Video"`.
    pub fn stage(&self) -> (r: &'static str)
        ensures
            r@ == stage_name(self@.stage),
    {
        match self.stage {
            Stage::Xml => "Xml",
            Stage::Video => "Video",
        }
    }

    pub fn done(&self) -> (r: bool)
        ensures
            r == self@.done,
    {
        self.done
    }
}

} // verus!
