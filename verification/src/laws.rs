use vstd::prelude::*;

use crate::event::Event;
use crate::event::Status;
use crate::instruction::BinOp;
use crate::instruction::apply_bin;
use crate::instruction::bin_faults;
use crate::instruction::low_byte;
use crate::state::REG_COUNT;
use crate::state::State;
use crate::state::step_allocate;
use crate::state::step_binary;
use crate::state::step_call;
use crate::state::step_free;
use crate::state::step_load;
use crate::state::step_return;
use crate::state::step_set_reg;
use crate::state::step_store;

verus! {

/// Writing a value to a valid register and then reading that register
/// yields exactly the written value, for every valid index and every value.
pub proof fn lemma_set_register_then_read(s: State, r: usize, v: i32)
    requires
        r < REG_COUNT,
        s.regs.len() == REG_COUNT,
    ensures
        step_set_reg(s, r, v).regs[r as int] == v,
{
}

/// Addition is commutative in its read operands: swapping the two source
/// registers leaves the written registers — and whether the run goes on —
/// unchanged.  (The trace differs: it records the operands in order.)
pub proof fn lemma_add_operands_commute(s: State, a: usize, b: usize, d: usize)
    ensures
        step_binary(s, BinOp::Add, a, b, d).regs == step_binary(s, BinOp::Add, b, a, d).regs,
        step_binary(s, BinOp::Add, a, b, d).status == step_binary(s, BinOp::Add, b, a, d).status,
{
    if a < REG_COUNT && b < REG_COUNT && d < REG_COUNT {
        assert(step_binary(s, BinOp::Add, a, b, d).regs =~= step_binary(
            s,
            BinOp::Add,
            b,
            a,
            d,
        ).regs);
    }
}

/// An arithmetic instruction reads both of its operands before it writes
/// its target, so the target register may coincide with a source: the
/// result is always the operation applied to the old operand values, and
/// no register other than the target changes.
pub proof fn lemma_binary_reads_before_write(s: State, op: BinOp, a: usize, b: usize, d: usize)
    requires
        a < REG_COUNT,
        b < REG_COUNT,
        d < REG_COUNT,
        s.regs.len() == REG_COUNT,
        !bin_faults(op, s.regs[b as int]),
    ensures
        step_binary(s, op, a, b, d).regs[d as int] == apply_bin(
            op,
            s.regs[a as int],
            s.regs[b as int],
        ),
        forall|i: int| 0 <= i < REG_COUNT && i != d ==> step_binary(s, op, a, b, d).regs[i]
            == s.regs[i],
{
}

/// Division or remainder by a register holding zero stops the run in the
/// fatal `Faulted` state: no register is written, nothing is reported to
/// the trace, and no silently wrong result can be observed.
pub proof fn lemma_division_by_zero_faults(s: State, op: BinOp, a: usize, b: usize, d: usize)
    requires
        op is Div || op is Mod,
        a < REG_COUNT,
        b < REG_COUNT,
        d < REG_COUNT,
        s.regs.len() == REG_COUNT,
        s.regs[b as int] == 0,
    ensures
        step_binary(s, op, a, b, d) == (State { status: Status::Faulted, ..s }),
{
}

/// Allocation hands out addresses monotonically and never reuses them:
/// starting from a fresh arena, the first two allocations land at `0` and
/// `s1`, and freeing the first region does not roll the cursor back — a
/// third allocation lands at `s1 + s2`, not at `0`.
pub proof fn lemma_allocation_addresses(s: State, s1: usize, s2: usize, s3: usize)
    requires
        s.cursor == 0,
        s1 + s2 + s3 <= usize::MAX,
    ensures
        step_allocate(s, s1).trace.last() == (Event::Allocated { address: 0, size: s1 }),
        step_allocate(step_allocate(s, s1), s2).trace.last() == (Event::Allocated {
            address: s1,
            size: s2,
        }),
        step_free(step_allocate(step_allocate(s, s1), s2), 0).cursor == s1 + s2,
        step_allocate(step_free(step_allocate(step_allocate(s, s1), s2), 0), s3).trace.last()
            == (Event::Allocated { address: (s1 + s2) as usize, size: s3 }),
{
    let t2 = step_allocate(step_allocate(s, s1), s2);
    assert(t2.mem.dom().contains(0));
}

/// A store followed by a load round-trips: after writing a register that
/// holds a value in the byte range `0 ..= 255` to the first byte of a live,
/// non-empty region, loading that region yields the same value.
pub proof fn lemma_store_load_round_trip(s: State, address: usize, r: usize, r2: usize, v: i32)
    requires
        s.mem.dom().contains(address),
        s.mem[address].len() >= 1,
        r < REG_COUNT,
        r2 < REG_COUNT,
        s.regs.len() == REG_COUNT,
        s.regs[r as int] == v,
        0 <= v <= 255,
    ensures
        step_load(step_store(s, address, r, 0), address, r2).regs[r2 as int] == v,
{
    assert(v & 0xff == v) by (bit_vector)
        requires
            0 <= v <= 255,
    ;
    assert(low_byte(v) as i32 == v);
}

/// `Call` saves exactly the position of the instruction that follows it:
/// the already-incremented pointer goes on top of the call stack, and no
/// register changes.
pub proof fn lemma_call_saves_return_position(s: State, off: usize)
    ensures
        step_call(s, off).stack == s.stack.push(s.ip),
        step_call(s, off).regs == s.regs,
{
}

/// `Return` resumes exactly at the most recently saved position, pops it,
/// and leaves every register as the called code left it — registers are
/// globally visible across calls, so work done inside the called region
/// remains visible to the caller.
pub proof fn lemma_return_resumes_at_saved_position(s: State)
    requires
        s.stack.len() > 0,
    ensures
        step_return(s).ip == s.stack.last(),
        step_return(s).stack == s.stack.drop_last(),
        step_return(s).regs == s.regs,
        step_return(s).mem == s.mem,
{
}

} // verus!
