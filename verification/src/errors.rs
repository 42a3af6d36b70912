//! Error taxonomy of the recording pipeline.

use vstd::prelude::*;

verus! {

/// The failures the pipeline distinguishes.
///
/// Setup-time errors (`Configuration`, `Device`, `Platform`, `Process`)
/// abort the whole start operation.  Steady-state errors (`Pipe`,
/// `Upload`) are isolated to one stream or one segment and never abort
/// the sibling stream.
#[derive(Clone, Copy, Debug, PartialEq, Eq, Structural)]
pub enum RecorderError {
    /// A required directory or option is missing.
    Configuration,
    /// No usable capture device or display exists.
    Device,
    /// The current operating system has no supported capture backend.
    Platform,
    /// A write to a closed or broken encoder input pipe.
    Pipe,
    /// An upload of one segment failed; the segment is not retried.
    Upload,
    /// An encoder process could not be spawned.
    Process,
}

impl RecorderError {
    /// A human-readable description, for logging outside the library.
    pub fn message(&self) -> (r: String)
        ensures
            *self == RecorderError::Configuration ==> r@ == "missing directory or option"@,
            *self == RecorderError::Device ==> r@ == "no usable capture device or display"@,
            *self == RecorderError::Platform ==> r@ == "unsupported operating system"@,
            *self == RecorderError::Pipe ==> r@ == "encoder input pipe closed"@,
            *self == RecorderError::Upload ==> r@ == "segment upload failed"@,
            *self == RecorderError::Process ==> r@ == "failed to spawn encoder process"@,
    {
        match self {
            RecorderError::Configuration => String::from_str("missing directory or option"),
            RecorderError::Device => String::from_str("no usable capture device or display"),
            RecorderError::Platform => String::from_str("unsupported operating system"),
            RecorderError::Pipe => String::from_str("encoder input pipe closed"),
            RecorderError::Upload => String::from_str("segment upload failed"),
            RecorderError::Process => String::from_str("failed to spawn encoder process"),
        }
    }
}

} // verus!
