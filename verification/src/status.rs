//! Info about the decoder status

pub use crate::flags::Status;
