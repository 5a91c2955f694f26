//! Capture-session configuration.

use vstd::prelude::*;
use crate::target::Target;

verus! {

/// Configuration a session is opened with.  Constructed once per session
/// and not mutated thereafter.  A `None` target means the primary/default
/// target.
pub struct CaptureOptions {
    pub target: Option<Target>,
    pub frame_rate: u32,
    pub show_cursor: bool,
    pub show_highlight: bool,
    pub excluded_targets: Option<Vec<Target>>,
}

impl Default for CaptureOptions {
    /// The recognized defaults: no explicit target, 32 frames per second,
    /// cursor hidden, highlight shown, nothing excluded.
    fn default() -> (r: CaptureOptions)
        ensures
            r.target is None,
            r.frame_rate == 32,
            !r.show_cursor,
            r.show_highlight,
            r.excluded_targets is None,
    {
        CaptureOptions {
            target: None,
            frame_rate: 32,
            show_cursor: false,
            show_highlight: true,
            excluded_targets: None,
        }
    }
}

} // verus!
