//! Helpers shared by the hardware backends: pixel layout conversion and
//! default profile sets.

pub mod pixel;
pub mod profile;
