//! Progress tracking: per-group trackers, their immutable snapshots and the
//! actor that owns every tracker of a run.
pub mod error;
pub mod monitor;
pub mod tracker;
pub mod types;

pub use tracker::{JobStatus, ProgressTracker, Stage, TrackerView};
pub use error::Error;
pub use monitor::{MonitorAction, MonitorEvent, ProgressMonitor};
pub use types::{JobInfo, JobInfoView, Message, MessageView, Progress, ProgressView};
