//! A cycle-stepped interpreter for the TD4, a four-bit teaching processor:
//! two accumulators, a carry flag, an input and an output port, and sixteen
//! bytes of instruction memory addressed by a four-bit program counter.
//!
//! [`machine`] holds the machine and its instruction table, [`nibble`] the
//! four-bit value type, [`binary`] the text form of nibbles and instruction
//! bytes, and [`message`] the commands of a front panel.

pub mod binary;
pub mod machine;
pub mod message;
pub mod nibble;

pub use machine::Model;
pub use message::Msg;
pub use nibble::u4;
