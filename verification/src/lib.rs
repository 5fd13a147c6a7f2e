//! Choosing the newest render directory and planning its encoding into a video.
//!
//! The library works on plain values: a directory listing goes in, an index, a
//! command line and the next action come out. Reading the file system and
//! running the encoder are left to the caller.

pub mod timestamp;
pub mod selector;
pub mod frame_rate;
pub mod encoder;
pub mod driver;
