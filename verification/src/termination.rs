use vstd::prelude::*;

use crate::instruction::Instruction;
use crate::state::State;
use crate::state::step;
use crate::state::step_instruction;
use crate::state::steps;
use crate::state::lemma_steps_shift;

verus! {

/// Every program terminates: jump and call offsets are unsigned, so apart
/// from `Return` every instruction strictly advances the pointer, and a
/// `Return` burns a call-stack entry that some earlier `Call` paid for.
/// This module makes that argument precise with a potential function: each
/// program position `x` weighs `3^(len + 1 - x)`, a position past the end
/// weighs nothing, and the machine's measure is the weight of the pointer
/// plus the weights of all saved return positions.  A `Call` trades the
/// factor 3 at its own position for at most two smaller weights, and every
/// other instruction shrinks a weight or removes one, so the measure
/// strictly decreases at every step that keeps running.

/// Powers of three.
pub open spec fn pow3(n: nat) -> nat
    decreases n,
{
    if n == 0 {
        1
    } else {
        3 * pow3((n - 1) as nat)
    }
}

pub proof fn lemma_pow3_pos(n: nat)
    ensures
        pow3(n) >= 1,
    decreases n,
{
    if n > 0 {
        lemma_pow3_pos((n - 1) as nat);
    }
}

pub proof fn lemma_pow3_le(a: nat, b: nat)
    requires
        a <= b,
    ensures
        pow3(a) <= pow3(b),
    decreases b,
{
    if a < b {
        lemma_pow3_le(a, (b - 1) as nat);
        lemma_pow3_pos((b - 1) as nat);
    }
}

/// The weight of one program position: `3^(len + 1 - x)` inside the
/// program (and just past its end), nothing beyond that.
pub open spec fn site_weight(len: nat, x: usize) -> nat {
    if x > len {
        0
    } else {
        pow3((len + 1 - x) as nat)
    }
}

/// Weights never grow as a position moves forward.
pub proof fn lemma_site_weight_le(len: nat, x: usize, y: usize)
    requires
        x <= y,
    ensures
        site_weight(len, y) <= site_weight(len, x),
{
    if y <= len {
        lemma_pow3_le((len + 1 - y) as nat, (len + 1 - x) as nat);
    }
}

/// A strict move forward from a position inside the program strictly
/// shrinks the weight.
pub proof fn lemma_site_weight_lt(len: nat, x: usize, y: usize)
    requires
        x < y,
        x <= len,
    ensures
        site_weight(len, y) < site_weight(len, x),
{
    lemma_pow3_pos((len + 1 - x) as nat);
    if y <= len {
        lemma_pow3_le((len + 1 - y) as nat, (len - x) as nat);
        assert(pow3((len + 1 - x) as nat) == 3 * pow3((len - x) as nat));
        lemma_pow3_pos((len - x) as nat);
    }
}

/// The combined weight of all saved return positions.
pub open spec fn stack_weight(len: nat, stack: Seq<usize>) -> nat
    decreases stack.len(),
{
    if stack.len() == 0 {
        0
    } else {
        stack_weight(len, stack.drop_last()) + site_weight(len, stack.last())
    }
}

pub proof fn lemma_stack_weight_push(len: nat, stack: Seq<usize>, v: usize)
    ensures
        stack_weight(len, stack.push(v)) == stack_weight(len, stack) + site_weight(len, v),
{
    assert(stack.push(v).drop_last() =~= stack);
    assert(stack.push(v).last() == v);
}

/// The loop measure of `run`: the weight of the pointer plus the weight of
/// the call stack.
pub open spec fn run_measure(len: nat, stack: Seq<usize>, ip: usize) -> nat {
    stack_weight(len, stack) + site_weight(len, ip)
}

/// An instruction that leaves the stack alone and moves the pointer
/// strictly forward shrinks the measure.
proof fn lemma_measure_forward(len: nat, stack: Seq<usize>, p: usize, ip2: usize)
    requires
        p < len,
        p < ip2,
    ensures
        run_measure(len, stack, ip2) < run_measure(len, stack, p),
{
    lemma_site_weight_lt(len, p, ip2);
}

/// A `Call` at position `p` pushes `p + 1` and lands at `ip2 >= p + 1`:
/// the two new weights together are at most two thirds of the weight the
/// pointer gave up.
proof fn lemma_measure_call(len: nat, stack: Seq<usize>, p: usize, ip2: usize)
    requires
        p < len,
        p + 1 <= ip2,
    ensures
        run_measure(len, stack.push((p + 1) as usize), ip2) < run_measure(len, stack, p),
{
    let p1 = (p + 1) as usize;
    lemma_stack_weight_push(len, stack, p1);
    lemma_site_weight_le(len, p1, ip2);
    assert(site_weight(len, p) == 3 * site_weight(len, p1));
    lemma_pow3_pos((len + 1 - p1) as nat);
}

/// A `Return` pops the top saved position and resumes there: the stack
/// gives up exactly the weight the pointer takes on, and the weight of the
/// return instruction's own position is lost.
proof fn lemma_measure_return(len: nat, stack: Seq<usize>, p: usize)
    requires
        p < len,
        stack.len() > 0,
    ensures
        run_measure(len, stack.drop_last(), stack.last()) < run_measure(len, stack, p),
{
    lemma_pow3_pos((len + 1 - p) as nat);
}

/// The central termination fact: any transition out of a running state
/// that again yields a running state strictly shrinks the measure.
pub proof fn lemma_step_decreases_measure(prog: Seq<Instruction>, s: State)
    requires
        s.status is Running,
        s.ip < prog.len(),
        prog.len() <= usize::MAX,
        step(prog, s).status is Running,
    ensures
        run_measure(prog.len(), step(prog, s).stack, step(prog, s).ip) < run_measure(
            prog.len(),
            s.stack,
            s.ip,
        ),
{
    let len = prog.len();
    let p = s.ip;
    let s1 = State { ip: (p + 1) as usize, ..s };
    let t = step(prog, s);
    assert(t == step_instruction(prog[p as int], s1, len));
    match prog[p as int] {
        Instruction::Jump(off) => {
            lemma_measure_forward(len, s.stack, p, t.ip);
        },
        Instruction::JumpIfZero(r, off) => {
            lemma_measure_forward(len, s.stack, p, t.ip);
        },
        Instruction::JumpIfNonZero(r, off) => {
            lemma_measure_forward(len, s.stack, p, t.ip);
        },
        Instruction::Call(off) => {
            assert(t.stack == s.stack.push(s1.ip));
            assert(t.ip >= s1.ip);
            lemma_measure_call(len, s.stack, p, t.ip);
        },
        Instruction::Return => {
            if s.stack.len() > 0 {
                assert(t.stack == s.stack.drop_last() && t.ip == s.stack.last());
                lemma_measure_return(len, s.stack, p);
            } else {
                lemma_measure_forward(len, s.stack, p, t.ip);
            }
        },
        _ => {
            assert(t.stack == s.stack && t.ip == s1.ip);
            lemma_measure_forward(len, s.stack, p, t.ip);
        },
    }
}

/// Every program terminates, from every starting state: because jump and
/// call offsets are unsigned and strictly forward, some number of
/// transitions always reaches a stopped state.  This is what lets `run`
/// execute arbitrary programs without a fuel limit.
pub proof fn lemma_every_program_terminates(prog: Seq<Instruction>, s: State)
    requires
        prog.len() <= usize::MAX,
    ensures
        exists|n: nat| !(steps(prog, s, n).status is Running),
    decreases run_measure(prog.len(), s.stack, s.ip),
{
    if !(s.status is Running) {
        assert(!(steps(prog, s, 0).status is Running));
    } else {
        let t = step(prog, s);
        if !(t.status is Running) {
            assert(steps(prog, s, 1) == t);
            assert(!(steps(prog, s, 1).status is Running));
        } else {
            lemma_step_decreases_measure(prog, s);
            lemma_every_program_terminates(prog, t);
            let n = choose|n: nat| !(steps(prog, t, n).status is Running);
            lemma_steps_shift(prog, s, n);
            assert(!(steps(prog, s, n + 1).status is Running));
        }
    }
}

} // verus!
