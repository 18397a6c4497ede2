//! Player motion core of a small 2D platformer.
//!
//! Each frame the host hands the core an input snapshot, the frame time and
//! the ground-contact feedback of the previous frame; the core answers with
//! the displacement to request from the kinematic collision resolver.
//!
//! Quantities are integers: time in microseconds, distances in micro-units
//! (a millionth of a world unit), speeds in world units per second, which is
//! numerically the same as micro-units per microsecond.
pub mod laws;
pub mod motion;
