use vstd::prelude::*;

verus! {

/// Errors produced by the time parsers, the time arithmetic and the planner.
#[allow(inconsistent_fields)]
#[derive(Debug)]
pub enum ZapError {
    ConfigDirNotFound,
    TemplateNotFound(String),
    EditorNotSet,
    EditorCommandParseError(String),
    EditorExitedWithError(String, Option<i32>),
    /// An absolute date-time string could not be read.
    ParseRfc3339 { input: String, reason: String },
    /// A compact timestamp is malformed.
    ParseTOption { input: String, reason: String },
    /// The date part of a compact timestamp has a length other than 8, 10 or 12.
    TOptionWrongLength { length: usize },
    /// The seconds of a compact timestamp are above 60.
    TOptionInvalidSecond { second: u32 },
    /// The seconds suffix of a compact timestamp is not made of two digits.
    TOptionInvalidSecondString { second: String },
    /// A field of a compact timestamp is out of range for a calendar date or time.
    TOptionOutOfRange { input: String },
    /// A compact timestamp names a local time that does not exist or is ambiguous.
    TOptionConvertToLocal,
    /// An adjustment string is malformed.
    ParseAdjustment { reason: String },
    TimeAdjustmentOverflow,
    TimeAdjustmentUnderflow,
    TimeAdjustmentParse(String),
    TimeConversionError,
    ReferenceFileNotFound(String),
    UserDeclinedOverwrite,
    UserDeclinedDirCreation,
}

impl ZapError {
    /// A refusal by the user ends the work on one file without counting as a failure.
    pub fn is_user_decline(&self) -> (r: bool)
        ensures
            r == (self is UserDeclinedOverwrite || self is UserDeclinedDirCreation),
    {
        match self {
            ZapError::UserDeclinedOverwrite => true,
            ZapError::UserDeclinedDirCreation => true,
            _ => false,
        }
    }
}

} // verus!
