//! Failures of the progress system: a message could not reach the actor.
use vstd::prelude::*;

verus! {

#[derive(Debug, Clone)]
pub enum Error {
    /// An update for `file` in the given group could not be sent.
    UpdateSignalFailed(String, String),
    /// A group could not be registered.
    CreateSignalFailed(String),
    /// A group's completion could not be reported.
    DoneSignalFailed(String),
}

/// The text shown for a progress failure.
pub open spec fn error_text(e: Error) -> Seq<char> {
    match e {
        Error::UpdateSignalFailed(file, folder) => "Update signal failed at "@ + file@ + "["@
            + folder@ + "]"@,
        Error::CreateSignalFailed(ctx) => "Create signal failed at "@ + ctx@,
        Error::DoneSignalFailed(ctx) => "Done signal failed at "@ + ctx@,
    }
}

impl Error {
    pub fn message(&self) -> (r: String)
        ensures
            r@ == error_text(*self),
    {
        match self {
            Error::UpdateSignalFailed(file, folder) => {
                let mut s = "Update signal failed at ".to_owned();
                s.append(file.as_str());
                s.append("[");
                s.append(folder.as_str());
                s.append("]");
                s
            },
            Error::CreateSignalFailed(ctx) => {
                let mut s = "Create signal failed at ".to_owned();
                s.append(ctx.as_str());
                s
            },
            Error::DoneSignalFailed(ctx) => {
                let mut s = "Done signal failed at ".to_owned();
                s.append(ctx.as_str());
                s
            },
        }
    }
}

} // verus!
