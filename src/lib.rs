//! Retains the most recent stretch of a system audio stream and turns it into
//! a self-contained artifact on demand.

pub mod bytes;
pub mod capture;
pub mod lifecycle;
pub mod ogg_stream;
pub mod opus_stream;
pub mod ring;
pub mod transport;
pub mod wav;
