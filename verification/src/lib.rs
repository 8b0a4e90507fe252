//! A small 32-bit x86 interpreter whose instruction semantics are stated as
//! functions on an abstract machine and proved of the executable code.
//!
//! The [`emulator`] module holds the machine state and its accessors; its
//! submodules hold the addressing-mode resolver, the instruction set, the
//! BIOS bridge and the port abstraction.
pub mod emulator;
