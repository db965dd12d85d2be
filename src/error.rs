//! Errors reported by the segmentation engine.
use vstd::prelude::*;

verus! {

/// Why a segmentation request was refused.
#[derive(Debug, Clone, Copy, PartialEq, Eq, Structural)]
pub enum VadError {
    /// No live session has the requested identifier.
    SessionNotFound,
    /// A frame handed to the smoothing layer does not hold exactly one
    /// classifier frame of samples.
    InvalidFrameLength,
}

impl VadError {
    /// A human-readable description of the error.
    pub fn message(&self) -> (r: String)
        ensures
            r@ == match self {
                VadError::SessionNotFound => "Session not found"@,
                VadError::InvalidFrameLength => "Frame does not hold 480 samples"@,
            },
    {
        match self {
            VadError::SessionNotFound => String::from_str("Session not found"),
            VadError::InvalidFrameLength => String::from_str("Frame does not hold 480 samples"),
        }
    }
}

} // verus!
