//! The external-facing façade: one capture session, its options, and the
//! warning channel that records soft-failed lifecycle transitions.
//!
//! Construction hard-fails on an unknown target id but soft-fails on a
//! start that cannot proceed; `reset` and `close` downgrade lifecycle
//! errors to warnings, while frame-pipeline errors are always raised.
//! The holder of the backend handle performs the backend calls that each
//! returned plan names.

use vstd::prelude::*;
use crate::error::{unwrap_warn, CaptureError};
use crate::frame::RawFrame;
use crate::image::{convert, spec_convert, ImageArray};
use crate::options::CaptureOptions;
use crate::session::CaptureSession;
use crate::target::{get_target_by_id, spec_find_target, Target};

verus! {

/// The auxiliary-metadata container a reset hands back beside the image.
/// It is always empty today; the type keeps the slot in the result shape.
pub struct Metadata {
    entries: Vec<(String, String)>,
}

impl Metadata {
    /// The key-value entries the container holds.
    pub closed spec fn spec_entries(&self) -> Seq<(String, String)> {
        self.entries@
    }

    /// A fresh, empty container.
    pub fn new() -> (m: Metadata)
        ensures
            m.spec_entries().len() == 0,
    {
        Metadata { entries: Vec::new() }
    }

    /// How many entries the container holds.
    pub fn len(&self) -> (n: usize)
        ensures
            n == self.spec_entries().len(),
    {
        self.entries.len()
    }
}

/// The default of an optional parameter.
pub open spec fn defaulted<T>(o: Option<T>, d: T) -> T {
    match o {
        Some(v) => v,
        None => d,
    }
}

/// Which backend calls the holder of the handle must make after a `reset`
/// transition: a backend stop first when requested, then a backend start.
pub struct ResetPlan {
    pub stop_backend: bool,
    pub start_backend: bool,
}

/// The façade object handed to the host caller.
pub struct Environment {
    session: CaptureSession,
    options: CaptureOptions,
    warnings: Vec<CaptureError>,
}

impl Environment {
    /// The lifecycle guard of the owned session.
    pub closed spec fn spec_session(&self) -> CaptureSession {
        self.session
    }

    /// The options the session was opened with.
    pub closed spec fn spec_options(&self) -> CaptureOptions {
        self.options
    }

    /// Every warning recorded so far, oldest first.
    pub closed spec fn spec_warnings(&self) -> Seq<CaptureError> {
        self.warnings@
    }

    /// Whether the owned session is capturing.
    pub open spec fn is_capturing(&self) -> bool {
        self.spec_session().is_capturing()
    }

    /// Build an environment: resolve the requested target against the given
    /// enumeration snapshot (an unknown id fails the whole construction
    /// with `TargetNotFound`), fill the remaining options with their
    /// defaults, open the session idle and immediately start it.  The
    /// start transition is soft-failed, but from a fresh session it always
    /// succeeds, so a returned environment is capturing with no warnings.
    pub fn new(
        targets: &Vec<Target>,
        target_id: Option<u32>,
        show_cursor: Option<bool>,
        show_highlight: Option<bool>,
        frame_rate: Option<u32>,
    ) -> (r: Result<Environment, CaptureError>)
        ensures
            r is Err <==> (target_id matches Some(id) && spec_find_target(targets@, id) is None),
            r matches Err(e) ==> (target_id matches Some(id) && e == (CaptureError::TargetNotFound {
                id,
            })),
            r matches Ok(env) ==> {
                &&& match target_id {
                    Some(id) => env.spec_options().target == spec_find_target(targets@, id),
                    None => env.spec_options().target is None,
                }
                &&& env.spec_options().frame_rate == defaulted(frame_rate, 32u32)
                &&& env.spec_options().show_cursor == defaulted(show_cursor, false)
                &&& env.spec_options().show_highlight == defaulted(show_highlight, true)
                &&& env.spec_options().excluded_targets is None
                &&& env.is_capturing()
                &&& env.spec_warnings().len() == 0
            },
    {
        let target: Option<Target> = match target_id {
            Some(id) => {
                match get_target_by_id(targets, id) {
                    Ok(t) => Some(t),
                    Err(e) => {
                        return Err(e);
                    },
                }
            },
            None => None,
        };
        let options = CaptureOptions {
            target,
            frame_rate: match frame_rate {
                Some(f) => f,
                None => 32,
            },
            show_cursor: match show_cursor {
                Some(b) => b,
                None => false,
            },
            show_highlight: match show_highlight {
                Some(b) => b,
                None => true,
            },
            excluded_targets: None,
        };
        let mut session = CaptureSession::open();
        let mut warnings: Vec<CaptureError> = Vec::new();
        let started = session.start_capture();
        let _ = unwrap_warn(started, &mut warnings);
        Ok(Environment { session, options, warnings })
    }

    /// Exec query of the session's lifecycle state.
    pub fn capturing(&self) -> (b: bool)
        ensures
            b == self.is_capturing(),
    {
        self.session.capturing()
    }

    /// The options the session was opened with.
    pub fn options(&self) -> (r: &CaptureOptions)
        ensures
            *r == self.spec_options(),
    {
        &self.options
    }

    /// The warnings recorded so far, oldest first.
    pub fn warnings(&self) -> (r: &Vec<CaptureError>)
        ensures
            r@ == self.spec_warnings(),
    {
        &self.warnings
    }

    /// The lifecycle half of `reset`: stop the session when it is
    /// capturing, then start it again, each transition soft-failed.  From
    /// the two reachable states neither transition can fail, so no warning
    /// is recorded and the session always ends up capturing.  The returned
    /// plan names the backend calls to make now: a stop exactly when the
    /// session was capturing, then always a start.
    pub fn prepare_reset(&mut self) -> (plan: ResetPlan)
        ensures
            final(self).is_capturing(),
            plan.stop_backend == old(self).is_capturing(),
            plan.start_backend,
            final(self).spec_warnings() == old(self).spec_warnings(),
            final(self).spec_options() == old(self).spec_options(),
    {
        let mut stop_backend = false;
        if self.session.capturing() {
            let stopped = self.session.stop_capture();
            let _ = unwrap_warn(stopped, &mut self.warnings);
            stop_backend = true;
        }
        let started = self.session.start_capture();
        let _ = unwrap_warn(started, &mut self.warnings);
        ResetPlan { stop_backend, start_backend: true }
    }

    /// The frame half of `reset`: convert the delivered frame and pair the
    /// image with an empty metadata container.  A conversion failure is
    /// raised, not warned: without an image there is no result to return.
    pub fn finish_reset(&self, frame: RawFrame) -> (r: Result<
        (ImageArray, Metadata),
        CaptureError,
    >)
        ensures
            r matches Ok(p) ==> spec_convert(frame) == Ok::<ImageArray, CaptureError>(p.0)
                && p.1.spec_entries().len() == 0,
            r matches Err(e) ==> spec_convert(frame) == Err::<ImageArray, CaptureError>(e),
            r is Ok <==> spec_convert(frame) is Ok,
    {
        match convert(frame) {
            Ok(image) => Ok((image, Metadata::new())),
            Err(e) => Err(e),
        }
    }

    /// Close the environment: stop the session, downgrading a `NotRunning`
    /// failure to a warning, since closing an already-stopped session is
    /// benign.  Never raises.  Returns whether to make the backend stop
    /// call: exactly when the session was capturing.
    pub fn close(&mut self) -> (stop_backend: bool)
        ensures
            !final(self).is_capturing(),
            stop_backend == old(self).is_capturing(),
            old(self).is_capturing() ==> final(self).spec_warnings() == old(self).spec_warnings(),
            !old(self).is_capturing() ==> final(self).spec_warnings() == old(
                self,
            ).spec_warnings().push(CaptureError::NotRunning),
            final(self).spec_options() == old(self).spec_options(),
    {
        let was_capturing = self.session.capturing();
        let stopped = self.session.stop_capture();
        let _ = unwrap_warn(stopped, &mut self.warnings);
        was_capturing
    }
}

} // verus!
