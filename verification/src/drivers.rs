//! What stands between the machine and its host's devices.

pub mod input;
pub mod video;
