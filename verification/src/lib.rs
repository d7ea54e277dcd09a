//! Driver core for a wearable motion-tracking glove.
//!
//! The glove streams fixed-size sensor frames over a wireless link; this crate
//! holds the two verified components that turn those frames into queryable
//! hand state:
//!
//! - [`hand::HandModel::from_raw_data`] decodes one raw 312-byte frame into a
//!   fixed-shape pose record, failing closed on any other length;
//! - [`hand::Hand`] owns the current pose record and the gesture summary
//!   derived from it (bent fingers, thumb contact), and keeps the two
//!   consistent across updates;
//! - [`shared::SharedHand`] places that state behind a reader-writer lock
//!   whose invariant admits only consistent states, so one frame producer
//!   and any number of snapshot readers can share it safely.
//!
//! Sensor values travel as IEEE-754 single-precision floats; the crate stores
//! them as their raw 32-bit patterns and does all threshold comparisons on
//! those patterns (see [`fbits`]), so every rule is stated and proved over
//! plain integers. The wireless transport and any visualisation live outside
//! this crate and exchange plain byte buffers and pose records with it.

pub mod fbits;
pub mod hand;
pub mod shared;
