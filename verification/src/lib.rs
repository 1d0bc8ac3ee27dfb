//! A register-based bytecode interpreter.
//!
//! The engine executes a fixed, closed instruction set against a register
//! file of eight signed 32-bit cells, an arena of explicitly allocated byte
//! regions, and a call stack of return positions.  Every observable effect
//! of a run is recorded as a structured [`event::Event`]; formatting those
//! records into text is left to the caller.
//!
//! The semantics of every instruction is given by the pure transition
//! functions in [`state`]; the executable engine in [`machine`] is proved
//! to follow them step by step.  Because jump and call offsets are unsigned
//! and therefore strictly forward, every program terminates, and
//! [`machine::VM::run`] is proved to terminate via the measure in
//! [`termination`].

pub mod event;
pub mod instruction;
pub mod laws;
pub mod machine;
pub mod state;
pub mod termination;
