//! Simple API for iterating over instructions in execution order.

mod class;
mod insn;

pub use class::Class;
pub use insn::{Insn, InsnView};
