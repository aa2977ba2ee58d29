//! Command dispatch and event-wait core of a secure-element application.
//!
//! The host sends framed requests (APDUs); this library decodes their routing
//! key, runs the matching handler and frames the reply with its status word.
//! It also holds the decisions of the cooperative wait loops that interleave
//! host frames, periodic ticks and requests to the supervisor. Everything
//! here works on plain values; touching the device is left to the caller.

pub mod apdu;
pub mod comm;
pub mod dispatch;
pub mod event;
pub mod status;
pub mod ticker;
pub mod ux;
pub mod version;
