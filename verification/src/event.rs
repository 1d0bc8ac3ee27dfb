use vstd::prelude::*;

use crate::instruction::BinOp;
use crate::instruction::CmpOp;

verus! {

/// One record of the engine's observable output.
///
/// The engine reports every state-changing operation, every `Print`, and
/// every non-fatal error condition as a discrete record in an append-only
/// trace.  The records carry the operands and results; rendering them as
/// text is the caller's business.
#[derive(Clone, Copy, Debug, PartialEq, Eq, Structural)]
pub enum Event {
    /// A register received an immediate value.
    RegisterSet { register: usize, value: i32 },
    /// An arithmetic instruction ran on the given operand values.
    Arithmetic { op: BinOp, lhs: i32, rhs: i32, result: i32, target: usize },
    /// A comparison instruction ran; `result` is 1 or 0.
    Comparison { op: CmpOp, lhs: i32, rhs: i32, result: i32, target: usize },
    /// A `Print` instruction emitted a register's value.
    Printed { register: usize, value: i32 },
    /// A region of `size` bytes was allocated at `address`.
    Allocated { address: usize, size: usize },
    /// The region at `address` was freed.
    Freed { address: usize },
    /// The low byte of register `register` (holding `value`) was written
    /// into the region at `address`, at the given offset.
    Stored { address: usize, offset: usize, register: usize, value: i32 },
    /// The first byte of the region at `address` was loaded into `register`.
    Loaded { address: usize, register: usize, value: i32 },
    /// A jump moved the instruction pointer to `target`.
    Jumped { target: usize },
    /// A call moved the instruction pointer to `target`.
    Called { target: usize },
    /// A register operand was out of range; the instruction was skipped.
    InvalidRegister,
    /// A jump target fell outside the program; the pointer was left alone.
    InvalidJump,
    /// No live region exists at `address`; no state was changed.
    RegionNotFound { address: usize },
    /// A memory access fell outside the region; no state was changed.
    OffsetOutOfBounds,
}

/// Whether the engine is still fetching instructions or has stopped.
///
/// `Halted` is the normal terminal state, reached by `Halt` or by the
/// pointer moving past the end of the program.  `Faulted` is the abnormal
/// terminal state, reached only by division or remainder by zero.
#[derive(Clone, Copy, Debug, PartialEq, Eq, Structural)]
pub enum Status {
    Running,
    Halted,
    Faulted,
}

} // verus!
