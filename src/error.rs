//! Failures of the orchestration core.
use vstd::prelude::*;

use crate::progress;

verus! {

#[derive(Debug)]
pub enum Error {
    NotExistanceInputOutputDir,
    CouldNotCreateDir(String),
    CopyError(String),
    ReadDirError(String),
    FfmpegError(String),
    ConverterHasNoTaskAvailable,
    SinkerError(String),
    ProgressTrackerError(progress::Error),
}

/// The text shown for a failure.
pub open spec fn error_text(e: Error) -> Seq<char> {
    match e {
        Error::NotExistanceInputOutputDir => "Input or Output dir are invalid"@,
        Error::CouldNotCreateDir(s) => s@,
        Error::CopyError(s) => s@,
        Error::ReadDirError(s) => s@,
        Error::FfmpegError(s) => s@,
        Error::ConverterHasNoTaskAvailable => "Internal Error"@,
        Error::SinkerError(s) => s@,
        Error::ProgressTrackerError(p) => progress::error::error_text(p),
    }
}

impl Error {
    pub fn message(&self) -> (r: String)
        ensures
            r@ == error_text(*self),
    {
        match self {
            Error::NotExistanceInputOutputDir => "Input or Output dir are invalid".to_owned(),
            Error::CouldNotCreateDir(s) => s.clone(),
            Error::CopyError(s) => s.clone(),
            Error::ReadDirError(s) => s.clone(),
            Error::FfmpegError(s) => s.clone(),
            Error::ConverterHasNoTaskAvailable => "Internal Error".to_owned(),
            Error::SinkerError(s) => s.clone(),
            Error::ProgressTrackerError(p) => p.message(),
        }
    }
}

} // verus!
