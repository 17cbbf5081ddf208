//! Verified core of a Rust interface to libipt, Intel's Processor Trace
//! decoder library: error codes, status flags, address space identifiers,
//! encoder/decoder configuration, address filters, trace events, blocks and
//! instructions.

pub mod asid;
pub mod block;
pub mod config;
pub mod enc_dec_builder;
pub mod error;
pub mod event;
pub mod flags;
pub mod insn;
pub mod packet;
pub mod raw_config;
pub mod status;

pub use asid::Asid;
pub use error::{PtError, PtErrorCode};
pub use flags::Status;
