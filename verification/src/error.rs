//! Error taxonomy of the pipeline.

use vstd::prelude::*;

verus! {

/// The external stage whose invocation failed.
#[derive(Clone, Copy, PartialEq, Eq, Structural, Debug)]
pub enum Stage {
    Transcription,
    Inference,
    Synthesis,
    Playback,
}

/// Everything the pipeline can fail with.
///
/// Capture errors (`DeviceError`, `IoError`, `UnsupportedFormat`) abort a run
/// before or during recording; a `CollaboratorError` names the external stage
/// that failed; `ProtocolError` is a malformed collaborator response;
/// `WhisperNotFound` carries the two candidate locations at which the
/// transcription engine binary was probed and missing.
#[derive(Debug)]
pub enum AssistantError {
    DeviceError,
    IoError,
    UnsupportedFormat,
    CollaboratorError { stage: Stage, reason: String },
    ProtocolError,
    WhisperNotFound { cli: String, fallback: String },
}

} // verus!
