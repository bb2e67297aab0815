//! Validation of the settings a user enters before a run: bitrates must be
//! numbers and both directories must be chosen.
use vstd::prelude::*;

verus! {

#[derive(Debug, Clone, Copy, PartialEq, Eq, Structural)]
pub enum Error {
    InputDirEmpty,
    OutputDirEmpty,
    AudioBitrateParseError,
    VideoBitrateParseError,
}

pub open spec fn error_text(e: Error) -> Seq<char> {
    match e {
        Error::AudioBitrateParseError | Error::VideoBitrateParseError => "Only numbers are allowed"@,
        _ => "Internal Error"@,
    }
}

impl Error {
    pub fn message(&self) -> (r: &'static str)
        ensures
            r@ == error_text(*self),
    {
        match self {
            Error::AudioBitrateParseError | Error::VideoBitrateParseError => "Only numbers are allowed",
            _ => "Internal Error",
        }
    }
}

pub open spec fn is_digit(c: char) -> bool {
    '0' <= c && c <= '9'
}

/// The value of a string of decimal digits.
pub open spec fn digits_value(s: Seq<char>) -> int
    decreases s.len(),
{
    if s.len() == 0 {
        0
    } else {
        digits_value(s.drop_last()) * 10 + (s.last() as int - '0' as int)
    }
}

/// What parsing `s` as a `u32` gives: an optional `+` followed by at least one
/// decimal digit and nothing else, with a value that fits.
pub open spec fn parsed_u32(s: Seq<char>) -> Option<u32> {
    let body = if s.len() > 0 && s[0] == '+' {
        s.subrange(1, s.len() as int)
    } else {
        s
    };
    if body.len() > 0 && (forall|i: int| 0 <= i < body.len() ==> is_digit(#[trigger] body[i]))
        && digits_value(body) <= u32::MAX {
        Some(digits_value(body) as u32)
    } else {
        None
    }
}

/// Relies on `str::parse::<u32>` (`u32::from_str`): an optional `+` and
/// decimal digits, failing on anything else and on overflow.
#[verifier::external_body]
fn parse_u32(s: &str) -> (r: Option<u32>)
    ensures
        r == parsed_u32(s@),
{
    s.parse::<u32>().ok()
}

/// The errors of the last validation of each setting.
#[derive(Debug, Copy, Clone)]
pub struct Validation {
    audio_bitrate_error: Option<Error>,
    video_bitrate_error: Option<Error>,
    input_dir_error: Option<Error>,
    output_dir_error: Option<Error>,
}

pub struct ValidationView {
    pub audio_bitrate_error: Option<Error>,
    pub video_bitrate_error: Option<Error>,
    pub input_dir_error: Option<Error>,
    pub output_dir_error: Option<Error>,
}

impl View for Validation {
    type V = ValidationView;

    closed spec fn view(&self) -> ValidationView {
        ValidationView {
            audio_bitrate_error: self.audio_bitrate_error,
            video_bitrate_error: self.video_bitrate_error,
            input_dir_error: self.input_dir_error,
            output_dir_error: self.output_dir_error,
        }
    }
}

/// The bitrate a field's text stands for: an empty field is 0, no field is
/// nothing.
pub open spec fn bitrate_of(value: Option<String>) -> Option<u32> {
    match value {
        None => None,
        Some(s) => if s@.len() == 0 {
            Some(0)
        } else {
            parsed_u32(s@)
        },
    }
}

/// The error a bitrate field leaves behind: cleared by a number, set by
/// anything else that is not empty, and untouched by an empty or absent field.
pub open spec fn bitrate_error_after(
    before: Option<Error>,
    value: Option<String>,
    failure: Error,
) -> Option<Error> {
    match value {
        None => before,
        Some(s) => if s@.len() == 0 {
            before
        } else if parsed_u32(s@) is Some {
            None
        } else {
            Some(failure)
        },
    }
}

impl Validation {
    pub fn new() -> (r: Self)
        ensures
            r@ == (ValidationView {
                audio_bitrate_error: None,
                video_bitrate_error: None,
                input_dir_error: None,
                output_dir_error: None,
            }),
    {
        Validation {
            audio_bitrate_error: None,
            video_bitrate_error: None,
            input_dir_error: None,
            output_dir_error: None,
        }
    }

    pub fn validate_audio_bitrate(&mut self, value: Option<String>) -> (r: Option<u32>)
        ensures
            r == bitrate_of(value),
            final(self)@ == (ValidationView {
                audio_bitrate_error: bitrate_error_after(
                    old(self)@.audio_bitrate_error,
                    value,
                    Error::AudioBitrateParseError,
                ),
                ..old(self)@
            }),
    {
        let audio_bitrate = match value {
            Some(v) => v,
            None => {
                return None;
            },
        };
        if audio_bitrate.as_str().is_empty() {
            return Some(0);
        }
        match parse_u32(audio_bitrate.as_str()) {
            Some(val) => {
                self.audio_bitrate_error = None;
                Some(val)
            },
            None => {
                self.audio_bitrate_error = Some(Error::AudioBitrateParseError);
                None
            },
        }
    }

    pub fn validate_video_bitrate(&mut self, value: Option<String>) -> (r: Option<u32>)
        ensures
            r == bitrate_of(value),
            final(self)@ == (ValidationView {
                video_bitrate_error: bitrate_error_after(
                    old(self)@.video_bitrate_error,
                    value,
                    Error::VideoBitrateParseError,
                ),
                ..old(self)@
            }),
    {
        let video_bitrate = match value {
            Some(v) => v,
            None => {
                return None;
            },
        };
        if video_bitrate.as_str().is_empty() {
            return Some(0);
        }
        match parse_u32(video_bitrate.as_str()) {
            Some(val) => {
                self.video_bitrate_error = None;
                Some(val)
            },
            None => {
                self.video_bitrate_error = Some(Error::VideoBitrateParseError);
                None
            },
        }
    }

    /// An absent input directory is an error; a chosen one is passed on.
    pub fn validate_input_dir(&mut self, value: Option<String>) -> (r: Option<String>)
        ensures
            r == value,
            final(self)@ == (ValidationView {
                input_dir_error: if value is None {
                    Some(Error::InputDirEmpty)
                } else {
                    old(self)@.input_dir_error
                },
                ..old(self)@
            }),
    {
        if value.is_none() {
            self.input_dir_error = Some(Error::InputDirEmpty);
            return None;
        }
        value
    }

    /// An absent output directory is an error; a chosen one is passed on.
    pub fn validate_output_dir(&mut self, value: Option<String>) -> (r: Option<String>)
        ensures
            r == value,
            final(self)@ == (ValidationView {
                output_dir_error: if value is None {
                    Some(Error::OutputDirEmpty)
                } else {
                    old(self)@.output_dir_error
                },
                ..old(self)@
            }),
    {
        if value.is_none() {
            self.output_dir_error = Some(Error::OutputDirEmpty);
            return None;
        }
        value
    }

    pub fn audio_bitrate_error(&self) -> (r: Option<Error>)
        ensures
            r == self@.audio_bitrate_error,
    {
        self.audio_bitrate_error
    }

    pub fn video_bitrate_error(&self) -> (r: Option<Error>)
        ensures
            r == self@.video_bitrate_error,
    {
        self.video_bitrate_error
    }

    pub fn input_dir_error(&self) -> (r: Option<Error>)
        ensures
            r == self@.input_dir_error,
    {
        self.input_dir_error
    }

    pub fn output_dir_error(&self) -> (r: Option<Error>)
        ensures
            r == self@.output_dir_error,
    {
        self.output_dir_error
    }
}

} // verus!
