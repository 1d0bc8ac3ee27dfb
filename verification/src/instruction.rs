use vstd::prelude::*;

verus! {

/// One decoded instruction of the engine's closed instruction set.
///
/// Register operands are indices into the eight-slot register file.
/// `Jump` and `Call` offsets are unsigned and are added to the
/// already-incremented instruction pointer, so control can only move
/// forward through the program; backward loops cannot be expressed.
#[derive(Clone, Copy, Debug, PartialEq, Eq, Structural)]
pub enum Instruction {
    /// Store an immediate value into a register.
    SetReg(usize, i32),
    /// Add the first two registers, store the result in the third.
    Add(usize, usize, usize),
    /// Subtract the second register from the first, store in the third.
    Sub(usize, usize, usize),
    /// Multiply the first two registers, store in the third.
    Mul(usize, usize, usize),
    /// Divide the first register by the second, store in the third.
    Div(usize, usize, usize),
    /// Remainder of the first register by the second, store in the third.
    Mod(usize, usize, usize),
    /// Store 1 in the third register if the first two are equal, else 0.
    Eq(usize, usize, usize),
    /// Store 1 in the third register if the first two differ, else 0.
    Neq(usize, usize, usize),
    /// Store 1 if the first register is greater than the second, else 0.
    Gt(usize, usize, usize),
    /// Store 1 if the first register is less than the second, else 0.
    Lt(usize, usize, usize),
    /// Store 1 if the first register is at least the second, else 0.
    Gte(usize, usize, usize),
    /// Store 1 if the first register is at most the second, else 0.
    Lte(usize, usize, usize),
    /// Move the instruction pointer forward by the given offset.
    Jump(usize),
    /// `Jump` by the offset if the register holds zero.
    JumpIfZero(usize, usize),
    /// `Jump` by the offset if the register holds a non-zero value.
    JumpIfNonZero(usize, usize),
    /// Emit the value of a register to the output trace.
    Print(usize),
    /// Stop execution immediately.
    Halt,
    /// Allocate a zero-filled memory region of the given size.
    AllocateMemory(usize),
    /// Free the memory region at the given address.
    FreeMemory(usize),
    /// Store the low byte of a register into a region at the given offset:
    /// address, register, offset.
    StoreToMemory(usize, usize, usize),
    /// Load the first byte of the region at the address into a register.
    LoadFromMemory(usize, usize),
    /// Push the current position and move forward by the given offset.
    Call(usize),
    /// Pop the call stack and resume at the popped position.
    Return,
}

/// Selects one of the five arithmetic operations, which share one handler.
#[derive(Clone, Copy, Debug, PartialEq, Eq, Structural)]
pub enum BinOp {
    Add,
    Sub,
    Mul,
    Div,
    Mod,
}

/// Selects one of the six comparison operations, which share one handler.
#[derive(Clone, Copy, Debug, PartialEq, Eq, Structural)]
pub enum CmpOp {
    Eq,
    Neq,
    Gt,
    Lt,
    Gte,
    Lte,
}

/// Whether the operation is a division or remainder whose right operand is
/// zero: the engine's one fatal arithmetic fault.
pub open spec fn bin_faults(op: BinOp, y: i32) -> bool {
    (op is Div || op is Mod) && y == 0
}

/// The value an arithmetic instruction writes to its target register.
///
/// Addition, subtraction and multiplication wrap around on overflow
/// (two's complement).  Division and remainder truncate toward zero; the
/// single out-of-range case `i32::MIN / -1` wraps, as std's `wrapping_div`
/// and `wrapping_rem` do.  Division or remainder by zero is the engine's
/// fatal fault and never produces a value.
pub open spec fn apply_bin(op: BinOp, x: i32, y: i32) -> i32
    recommends
        !bin_faults(op, y),
{
    match op {
        BinOp::Add => x.wrapping_add(y),
        BinOp::Sub => x.wrapping_sub(y),
        BinOp::Mul => x.wrapping_mul(y),
        BinOp::Div => match x.checked_div(y) {
            Some(q) => q,
            None => i32::MIN,
        },
        BinOp::Mod => match x.checked_rem(y) {
            Some(r) => r,
            None => 0i32,
        },
    }
}

/// Whether a comparison between two register values holds.
pub open spec fn cmp_holds(op: CmpOp, x: i32, y: i32) -> bool {
    match op {
        CmpOp::Eq => x == y,
        CmpOp::Neq => x != y,
        CmpOp::Gt => x > y,
        CmpOp::Lt => x < y,
        CmpOp::Gte => x >= y,
        CmpOp::Lte => x <= y,
    }
}

/// The low eight bits of a register value, as `StoreToMemory` writes them.
pub open spec fn low_byte(v: i32) -> u8 {
    (v & 0xff) as u8
}

/// Executable counterpart of [`apply_bin`].
pub fn eval_bin(op: BinOp, x: i32, y: i32) -> (r: i32)
    ensures
        r == apply_bin(op, x, y),
{
    match op {
        BinOp::Add => x.wrapping_add(y),
        BinOp::Sub => x.wrapping_sub(y),
        BinOp::Mul => x.wrapping_mul(y),
        BinOp::Div => match x.checked_div(y) {
            Some(q) => q,
            None => i32::MIN,
        },
        BinOp::Mod => match x.checked_rem(y) {
            Some(r) => r,
            None => 0i32,
        },
    }
}

/// Executable counterpart of [`cmp_holds`].
pub fn eval_cmp(op: CmpOp, x: i32, y: i32) -> (r: bool)
    ensures
        r == cmp_holds(op, x, y),
{
    match op {
        CmpOp::Eq => x == y,
        CmpOp::Neq => x != y,
        CmpOp::Gt => x > y,
        CmpOp::Lt => x < y,
        CmpOp::Gte => x >= y,
        CmpOp::Lte => x <= y,
    }
}

/// Executable counterpart of [`low_byte`].
pub fn eval_low_byte(v: i32) -> (b: u8)
    ensures
        b == low_byte(v),
{
    let m: i32 = v & 0xff;
    proof {
        assert(0 <= (v & 0xff) && (v & 0xff) < 256) by (bit_vector);
    }
    m as u8
}

} // verus!
