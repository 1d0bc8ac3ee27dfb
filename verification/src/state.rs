use vstd::prelude::*;

use crate::event::Event;
use crate::event::Status;
use crate::instruction::Instruction;
use crate::instruction::BinOp;
use crate::instruction::CmpOp;
use crate::instruction::apply_bin;
use crate::instruction::bin_faults;
use crate::instruction::cmp_holds;
use crate::instruction::low_byte;

verus! {

/// Number of slots in the register file.
pub const REG_COUNT: usize = 8;

/// The mutable state of one run of the engine.
///
/// The program itself is not part of this state: it is supplied once at
/// construction and never changes.  `ip` is the index of the next
/// instruction to fetch.  `mem` maps each live region's address to its
/// bytes; `cursor` is the next address the arena will hand out, and it only
/// ever grows, so addresses are never reused.  `stack` holds return
/// positions, last in first out.  `trace` is the observable output.
#[verifier::ext_equal]
pub ghost struct State {
    pub ip: usize,
    pub regs: Seq<i32>,
    pub mem: Map<usize, Seq<u8>>,
    pub cursor: usize,
    pub stack: Seq<usize>,
    pub trace: Seq<Event>,
    pub status: Status,
}

/// The state a freshly constructed engine starts in: pointer at the first
/// instruction, all registers zero, no regions, an empty call stack and an
/// empty trace.
pub open spec fn init_state() -> State {
    State {
        ip: 0,
        regs: Seq::new(REG_COUNT as nat, |i: int| 0i32),
        mem: Map::empty(),
        cursor: 0,
        stack: Seq::empty(),
        trace: Seq::empty(),
        status: Status::Running,
    }
}

/// Record a diagnostic for an out-of-range register operand; the
/// instruction's effect is skipped.
pub open spec fn report_invalid_register(s: State) -> State {
    State { trace: s.trace.push(Event::InvalidRegister), ..s }
}

/// Effect of `SetReg`: write the immediate into the register, or report an
/// invalid index and change nothing.
pub open spec fn step_set_reg(s: State, r: usize, v: i32) -> State {
    if r < REG_COUNT {
        State {
            regs: s.regs.update(r as int, v),
            trace: s.trace.push(Event::RegisterSet { register: r, value: v }),
            ..s
        }
    } else {
        report_invalid_register(s)
    }
}

/// Effect of the arithmetic instructions: both operands are read before the
/// target is written, so the target may coincide with an operand.  Division
/// or remainder by zero faults: the run stops and no register changes.
pub open spec fn step_binary(s: State, op: BinOp, a: usize, b: usize, d: usize) -> State {
    if a < REG_COUNT && b < REG_COUNT && d < REG_COUNT {
        let x = s.regs[a as int];
        let y = s.regs[b as int];
        if bin_faults(op, y) {
            State { status: Status::Faulted, ..s }
        } else {
            let r = apply_bin(op, x, y);
            State {
                regs: s.regs.update(d as int, r),
                trace: s.trace.push(
                    Event::Arithmetic { op, lhs: x, rhs: y, result: r, target: d },
                ),
                ..s
            }
        }
    } else {
        report_invalid_register(s)
    }
}

/// Effect of the comparison instructions: the target register receives 1 if
/// the predicate holds and 0 otherwise.
pub open spec fn step_compare(s: State, op: CmpOp, a: usize, b: usize, d: usize) -> State {
    if a < REG_COUNT && b < REG_COUNT && d < REG_COUNT {
        let x = s.regs[a as int];
        let y = s.regs[b as int];
        let r: i32 = if cmp_holds(op, x, y) { 1i32 } else { 0i32 };
        State {
            regs: s.regs.update(d as int, r),
            trace: s.trace.push(Event::Comparison { op, lhs: x, rhs: y, result: r, target: d }),
            ..s
        }
    } else {
        report_invalid_register(s)
    }
}

/// Effect of `Jump`: move the (already incremented) pointer forward by the
/// offset, but only if the target is still inside the program; otherwise
/// report an invalid jump and leave the pointer alone.
pub open spec fn step_jump(s: State, off: usize, len: nat) -> State
    recommends
        len <= usize::MAX,
{
    if s.ip + off < len {
        State {
            ip: (s.ip + off) as usize,
            trace: s.trace.push(Event::Jumped { target: (s.ip + off) as usize }),
            ..s
        }
    } else {
        State { trace: s.trace.push(Event::InvalidJump), ..s }
    }
}

/// Effect of `JumpIfZero`: jump exactly when the register holds zero.
pub open spec fn step_jump_if_zero(s: State, r: usize, off: usize, len: nat) -> State
    recommends
        len <= usize::MAX,
{
    if r < REG_COUNT {
        if s.regs[r as int] == 0 {
            step_jump(s, off, len)
        } else {
            s
        }
    } else {
        report_invalid_register(s)
    }
}

/// Effect of `JumpIfNonZero`: jump exactly when the register is non-zero.
pub open spec fn step_jump_if_non_zero(s: State, r: usize, off: usize, len: nat) -> State
    recommends
        len <= usize::MAX,
{
    if r < REG_COUNT {
        if s.regs[r as int] != 0 {
            step_jump(s, off, len)
        } else {
            s
        }
    } else {
        report_invalid_register(s)
    }
}

/// Effect of `Print`: emit the register's value; no state changes.
pub open spec fn step_print(s: State, r: usize) -> State {
    if r < REG_COUNT {
        State {
            trace: s.trace.push(Event::Printed { register: r, value: s.regs[r as int] }),
            ..s
        }
    } else {
        report_invalid_register(s)
    }
}

/// Effect of `AllocateMemory`: a zero-filled region of exactly `size` bytes
/// appears at the cursor, and the cursor advances by `size`.  The cursor
/// saturates at `usize::MAX`; past that point the address space is
/// exhausted.  Freed addresses are never handed out again because the
/// cursor never moves back.
pub open spec fn step_allocate(s: State, size: usize) -> State {
    let address = s.cursor;
    State {
        mem: s.mem.insert(address, Seq::new(size as nat, |i: int| 0u8)),
        cursor: s.cursor.saturating_add(size),
        trace: s.trace.push(Event::Allocated { address, size }),
        ..s
    }
}

/// Effect of `FreeMemory`: remove the region if it is live, otherwise
/// report that no region exists at the address.  The cursor is unaffected.
pub open spec fn step_free(s: State, address: usize) -> State {
    if s.mem.dom().contains(address) {
        State {
            mem: s.mem.remove(address),
            trace: s.trace.push(Event::Freed { address }),
            ..s
        }
    } else {
        State { trace: s.trace.push(Event::RegionNotFound { address }), ..s }
    }
}

/// Effect of `StoreToMemory`: write the low byte of the register into the
/// region at the given offset.  A missing region, an offset past the end of
/// the region, or a bad register index is reported and nothing changes.
pub open spec fn step_store(s: State, address: usize, r: usize, off: usize) -> State {
    if !s.mem.dom().contains(address) {
        State { trace: s.trace.push(Event::RegionNotFound { address }), ..s }
    } else if off >= s.mem[address].len() {
        State { trace: s.trace.push(Event::OffsetOutOfBounds), ..s }
    } else if r < REG_COUNT {
        let v = s.regs[r as int];
        State {
            mem: s.mem.insert(address, s.mem[address].update(off as int, low_byte(v))),
            trace: s.trace.push(Event::Stored { address, offset: off, register: r, value: v }),
            ..s
        }
    } else {
        report_invalid_register(s)
    }
}

/// Effect of `LoadFromMemory`: read the first byte of the region,
/// zero-extended, into the register.  Only offset 0 can be loaded.  A
/// missing region is reported as such; a zero-length region is a bounds
/// failure, not a default-zero read.
pub open spec fn step_load(s: State, address: usize, r: usize) -> State {
    if !s.mem.dom().contains(address) {
        State { trace: s.trace.push(Event::RegionNotFound { address }), ..s }
    } else if s.mem[address].len() == 0 {
        State { trace: s.trace.push(Event::OffsetOutOfBounds), ..s }
    } else if r < REG_COUNT {
        let v = s.mem[address][0] as i32;
        State {
            regs: s.regs.update(r as int, v),
            trace: s.trace.push(Event::Loaded { address, register: r, value: v }),
            ..s
        }
    } else {
        report_invalid_register(s)
    }
}

/// Effect of `Call`: push the (already incremented) pointer, then move it
/// forward by the offset, unconditionally.  The addition saturates at
/// `usize::MAX`; a target at or past the end of the program is not an
/// error here — it is caught by the next fetch, which halts.
pub open spec fn step_call(s: State, off: usize) -> State {
    let target = s.ip.saturating_add(off);
    State {
        stack: s.stack.push(s.ip),
        ip: target,
        trace: s.trace.push(Event::Called { target }),
        ..s
    }
}

/// Effect of `Return`: pop the call stack and resume at the popped
/// position.  A stray `Return` on an empty stack is silently a no-op.
pub open spec fn step_return(s: State) -> State {
    if s.stack.len() > 0 {
        State { ip: s.stack.last(), stack: s.stack.drop_last(), ..s }
    } else {
        s
    }
}

/// Dispatch: the effect of one instruction on the state, after the fetch
/// has already advanced the pointer.  `len` is the program's length, which
/// only the jump bounds check consults.
pub open spec fn step_instruction(inst: Instruction, s: State, len: nat) -> State
    recommends
        len <= usize::MAX,
{
    match inst {
        Instruction::SetReg(r, v) => step_set_reg(s, r, v),
        Instruction::Add(a, b, d) => step_binary(s, BinOp::Add, a, b, d),
        Instruction::Sub(a, b, d) => step_binary(s, BinOp::Sub, a, b, d),
        Instruction::Mul(a, b, d) => step_binary(s, BinOp::Mul, a, b, d),
        Instruction::Div(a, b, d) => step_binary(s, BinOp::Div, a, b, d),
        Instruction::Mod(a, b, d) => step_binary(s, BinOp::Mod, a, b, d),
        Instruction::Eq(a, b, d) => step_compare(s, CmpOp::Eq, a, b, d),
        Instruction::Neq(a, b, d) => step_compare(s, CmpOp::Neq, a, b, d),
        Instruction::Gt(a, b, d) => step_compare(s, CmpOp::Gt, a, b, d),
        Instruction::Lt(a, b, d) => step_compare(s, CmpOp::Lt, a, b, d),
        Instruction::Gte(a, b, d) => step_compare(s, CmpOp::Gte, a, b, d),
        Instruction::Lte(a, b, d) => step_compare(s, CmpOp::Lte, a, b, d),
        Instruction::Jump(off) => step_jump(s, off, len),
        Instruction::JumpIfZero(r, off) => step_jump_if_zero(s, r, off, len),
        Instruction::JumpIfNonZero(r, off) => step_jump_if_non_zero(s, r, off, len),
        Instruction::Print(r) => step_print(s, r),
        Instruction::Halt => State { status: Status::Halted, ..s },
        Instruction::AllocateMemory(size) => step_allocate(s, size),
        Instruction::FreeMemory(address) => step_free(s, address),
        Instruction::StoreToMemory(address, r, off) => step_store(s, address, r, off),
        Instruction::LoadFromMemory(address, r) => step_load(s, address, r),
        Instruction::Call(off) => step_call(s, off),
        Instruction::Return => step_return(s),
    }
}

/// One transition of the dispatch loop: a stopped state stays exactly as it
/// is; a pointer past the end of the program halts; otherwise the
/// instruction under the pointer is fetched, the pointer is incremented,
/// and the instruction's effect is applied.
pub open spec fn step(prog: Seq<Instruction>, s: State) -> State
    recommends
        prog.len() <= usize::MAX,
{
    if !(s.status is Running) {
        s
    } else if s.ip >= prog.len() {
        State { status: Status::Halted, ..s }
    } else {
        step_instruction(prog[s.ip as int], State { ip: (s.ip + 1) as usize, ..s }, prog.len())
    }
}

/// `n` transitions of the dispatch loop.
pub open spec fn steps(prog: Seq<Instruction>, s: State, n: nat) -> State
    recommends
        prog.len() <= usize::MAX,
    decreases n,
{
    if n == 0 {
        s
    } else {
        step(prog, steps(prog, s, (n - 1) as nat))
    }
}

/// Iterating from `s` for `n + 1` transitions is the same as taking one
/// transition and iterating from there for `n`.
pub proof fn lemma_steps_shift(prog: Seq<Instruction>, s: State, n: nat)
    ensures
        steps(prog, s, n + 1) == steps(prog, step(prog, s), n),
    decreases n,
{
    if n == 0 {
        assert(steps(prog, s, 1) == step(prog, steps(prog, s, 0)));
        assert(steps(prog, s, 0) == s);
    } else {
        lemma_steps_shift(prog, s, (n - 1) as nat);
        assert(steps(prog, s, n + 1) == step(prog, steps(prog, s, n)));
        assert(steps(prog, step(prog, s), n) == step(
            prog,
            steps(prog, step(prog, s), (n - 1) as nat),
        ));
    }
}

/// Once the machine has stopped, further transitions change nothing: the
/// stopped state absorbs.
pub proof fn lemma_steps_absorb(prog: Seq<Instruction>, s: State, n: nat, m: nat)
    requires
        n <= m,
        !(steps(prog, s, n).status is Running),
    ensures
        steps(prog, s, m) == steps(prog, s, n),
    decreases m,
{
    if n < m {
        lemma_steps_absorb(prog, s, n, (m - 1) as nat);
    }
}

/// The machine is deterministic and its stopped state absorbs, so whenever
/// two step counts both reach a stopped state, it is the same state: a run
/// has exactly one outcome.
pub proof fn lemma_final_state_unique(prog: Seq<Instruction>, s: State, n1: nat, n2: nat)
    requires
        !(steps(prog, s, n1).status is Running),
        !(steps(prog, s, n2).status is Running),
    ensures
        steps(prog, s, n1) == steps(prog, s, n2),
{
    if n1 <= n2 {
        lemma_steps_absorb(prog, s, n1, n2);
    } else {
        lemma_steps_absorb(prog, s, n2, n1);
    }
}

} // verus!
