//! Frame distribution, recording and the exclusive serial session of a
//! peripheral gateway, as state machines the request handlers drive.

pub mod devices;
pub mod frame;
pub mod recording;
pub mod serial;
pub mod stream;
