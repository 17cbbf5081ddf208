//! Intel Processor Trace (Intel PT) encoder or decoder configuration.

pub mod cpu;
pub mod filter;


pub use crate::config::freqency::Frequency;
pub use cpu::{Cpu, CpuVendor};
pub use filter::{AddrFilter, AddrFilterType, AddrFilters, Iter};
