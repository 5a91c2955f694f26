//! Verified core of a screen/window capture session manager.
//!
//! The crate models the capture-session lifecycle (idle/capturing), target
//! discovery and resolution, and the conversion of backend-delivered raw
//! frames into 3-channel image arrays with explicit strides.  The capture
//! backend itself and the host-language binding layer live outside the
//! library and hand it plain values.

pub mod environment;
pub mod error;
pub mod frame;
pub mod image;
pub mod options;
pub mod session;
pub mod target;
