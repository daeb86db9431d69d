//! Verified core of a live-audio-to-UDP streaming engine: sample serialisation,
//! input device preference, destination addressing and the start/stop lifecycle.

pub mod encoder;
pub mod device;
pub mod lifecycle;
