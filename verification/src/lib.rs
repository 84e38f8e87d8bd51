//! Disassembly of single 32-bit MIPS machine-code words.
//!
//! [`get_disassembly_adv`] turns one instruction word into one line of
//! assembly text, optionally resolving branch and jump targets against a
//! caller-supplied symbol table and rendering common idioms (`NOP`, `MOVE`,
//! `B`, `BAL`, single-operand `JALR`) in their short pseudo-instruction
//! form. [`get_disassembly`] is the zero-configuration variant.
//!
//! The exact text produced is pinned down by the specification function
//! [`decode::disassembly_text`]; the exec functions are verified to return
//! precisely that text for every possible input word. The guarantees that
//! hold across all inputs — totality, the pseudo-instruction rules for the
//! all-zero word, independence of the register-style option, preservation
//! of the high address bits in jump targets, and the sentinel for
//! unsupported words — are stated and proved in [`laws`].

pub mod decode;
pub mod fields;
pub mod laws;
pub mod regs;
pub mod symbols;
pub mod text;

pub use decode::MipsDisassemblyOptions;
pub use decode::get_disassembly;
pub use decode::get_disassembly_adv;
