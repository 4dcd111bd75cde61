//! Resolution of the scripts that govern a transaction input, and rendering of
//! locking scripts as legacy addresses and as disassembly text.
pub mod address;
pub mod disasm;
pub mod inner;
pub mod instruction;
pub mod script;
