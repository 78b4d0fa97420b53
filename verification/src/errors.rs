//! Error taxonomy of the capture pipeline.
//!
//! Setup failures are fatal to the operation that raised them; steady-state
//! failures degrade gracefully (a dropped chunk, a broken pipe) and stop-path
//! failures are best-effort.
use vstd::prelude::*;

verus! {

/// Every failure the pipeline distinguishes.
#[derive(Clone, Copy, Debug, PartialEq, Eq, Structural)]
pub enum RecorderError {
    /// The platform reported no usable device at all (fatal at start).
    DeviceNotFound,
    /// No device format is acceptable (fatal at start).
    UnsupportedFormat,
    /// The encoder subprocess could not be launched (fatal at start).
    SpawnFailed,
    /// A native capture stream could not be built (fatal at start).
    StreamBuildFailed,
    /// A bounded channel was full; the chunk was dropped (non-fatal).
    ChannelFull,
    /// Writing to an encoder input pipe failed (non-fatal; ends forwarding).
    WriteFailed,
    /// A segment manifest could not be read (fatal during assembly).
    ManifestReadFailed,
    /// Installing or removing a device property listener failed (non-fatal
    /// to the session; surfaced to the caller of register/unregister).
    PropertyListenerFailed,
}

impl RecorderError {
    /// A short human-readable description of the error.
    pub fn message(&self) -> (s: &'static str)
        ensures
            (*self is DeviceNotFound) ==> s@ == "device not found"@,
            (*self is UnsupportedFormat) ==> s@ == "unsupported sample format"@,
            (*self is SpawnFailed) ==> s@ == "failed to spawn encoder process"@,
            (*self is StreamBuildFailed) ==> s@ == "failed to build capture stream"@,
            (*self is ChannelFull) ==> s@ == "channel full, chunk dropped"@,
            (*self is WriteFailed) ==> s@ == "failed to write to encoder pipe"@,
            (*self is ManifestReadFailed) ==> s@ == "failed to read segment manifest"@,
            (*self is PropertyListenerFailed) ==> s@ == "property listener operation failed"@,
    {
        match self {
            RecorderError::DeviceNotFound => "device not found",
            RecorderError::UnsupportedFormat => "unsupported sample format",
            RecorderError::SpawnFailed => "failed to spawn encoder process",
            RecorderError::StreamBuildFailed => "failed to build capture stream",
            RecorderError::ChannelFull => "channel full, chunk dropped",
            RecorderError::WriteFailed => "failed to write to encoder pipe",
            RecorderError::ManifestReadFailed => "failed to read segment manifest",
            RecorderError::PropertyListenerFailed => "property listener operation failed",
        }
    }
}

} // verus!
