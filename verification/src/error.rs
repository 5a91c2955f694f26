//! Error kinds of the capture core, and the soft-fail helper that downgrades
//! an error into a recorded warning.

use vstd::prelude::*;
use crate::frame::FrameFormat;

verus! {

/// Every failure the capture core can report.
///
/// - `TargetNotFound`: no enumerated target carries the requested id.
/// - `AlreadyRunning` / `NotRunning`: an illegal lifecycle transition.
/// - `UnsupportedFrameFormat`: the backend delivered a pixel format the
///   converter cannot interpret.
/// - `ShapeError`: the frame's byte buffer is shorter than its declared
///   geometry requires.
/// - `Backend`: an opaque backend failure during frame delivery, carrying
///   the backend's message.
#[derive(Debug)]
pub enum CaptureError {
    TargetNotFound { id: u32 },
    AlreadyRunning,
    NotRunning,
    UnsupportedFrameFormat { format: FrameFormat },
    ShapeError { height: u32, width: u32, actual: usize },
    Backend { message: String },
}

/// Soft-fail policy helper: on `Ok` hand the value through, on `Err` record
/// the error on the warning channel and continue with `None`.  Call sites
/// that must propagate instead simply keep the `Result`.
pub fn unwrap_warn<T>(r: Result<T, CaptureError>, warnings: &mut Vec<CaptureError>) -> (res: Option<
    T,
>)
    ensures
        match r {
            Ok(v) => res == Some(v) && final(warnings)@ == old(warnings)@,
            Err(e) => res is None && final(warnings)@ == old(warnings)@.push(e),
        },
{
    match r {
        Ok(v) => Some(v),
        Err(e) => {
            warnings.push(e);
            None
        },
    }
}

} // verus!
