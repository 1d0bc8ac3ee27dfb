use vstd::prelude::*;
use vstd::pervasive::VecAdditionalExecFns;

use std::collections::HashMap;

use crate::event::Event;
use crate::event::Status;
use crate::instruction::BinOp;
use crate::instruction::CmpOp;
use crate::instruction::Instruction;
use crate::instruction::eval_bin;
use crate::instruction::eval_cmp;
use crate::instruction::eval_low_byte;
use crate::state::REG_COUNT;
use crate::state::State;
use crate::state::init_state;
use crate::state::step;
use crate::state::step_allocate;
use crate::state::step_binary;
use crate::state::step_call;
use crate::state::step_compare;
use crate::state::step_free;
use crate::state::step_jump;
use crate::state::step_jump_if_non_zero;
use crate::state::step_jump_if_zero;
use crate::state::step_load;
use crate::state::step_print;
use crate::state::step_return;
use crate::state::step_set_reg;
use crate::state::step_store;
use crate::state::steps;
use crate::termination::lemma_step_decreases_measure;
use crate::termination::run_measure;

verus! {

/// One live block of arena memory: a buffer of exactly `size` bytes,
/// zero-filled at allocation.
#[derive(Clone, Debug)]
pub struct MemoryRegion {
    pub size: usize,
    pub data: Vec<u8>,
}

/// The abstract contents of the arena: each live address, mapped to the
/// bytes of its region.
pub open spec fn mem_view(m: Map<usize, MemoryRegion>) -> Map<usize, Seq<u8>> {
    Map::new(|a: usize| m.dom().contains(a), |a: usize| m[a].data@)
}

/// The bytecode engine: an instruction pointer into an immutable program,
/// the register file, the memory arena with its allocation cursor, the
/// call stack, the output trace, and whether the run has stopped.
pub struct VM {
    pub ip: usize,
    pub program: Vec<Instruction>,
    pub registers: Vec<i32>,
    pub memory: HashMap<usize, MemoryRegion>,
    pub next_free_address: usize,
    pub stack: Vec<usize>,
    pub trace: Vec<Event>,
    pub status: Status,
}

impl View for VM {
    type V = State;

    open spec fn view(&self) -> State {
        State {
            ip: self.ip,
            regs: self.registers@,
            mem: mem_view(self.memory@),
            cursor: self.next_free_address,
            stack: self.stack@,
            trace: self.trace@,
            status: self.status,
        }
    }
}

impl VM {
    /// The register file has exactly eight slots; every region's buffer
    /// matches its recorded size; and every live address lies at or below
    /// the allocation cursor, which only ever grows.
    pub open spec fn wf(self) -> bool {
        &&& self.registers@.len() == REG_COUNT
        &&& forall|a: usize| #[trigger]
            self.memory@.dom().contains(a) ==> self.memory@[a].size == self.memory@[a].data@.len()
                && a <= self.next_free_address
    }

    /// Construct an engine for a program: pointer at the first instruction,
    /// registers all zero, no memory regions, an empty call stack and an
    /// empty trace.
    pub fn new(program: Vec<Instruction>) -> (vm: VM)
        ensures
            vm.wf(),
            vm.program@ == program@,
            vm@ == init_state(),
    {
        let mut registers: Vec<i32> = Vec::new();
        let mut i: usize = 0;
        while i < 8
            invariant
                i <= 8,
                registers@.len() == i,
                forall|j: int| 0 <= j < i ==> registers@[j] == 0i32,
            decreases 8 - i,
        {
            registers.push(0);
            i = i + 1;
        }
        let vm = VM {
            ip: 0,
            program,
            registers,
            memory: HashMap::new(),
            next_free_address: 0,
            stack: Vec::new(),
            trace: Vec::new(),
            status: Status::Running,
        };
        proof {
            assert(vm@.regs =~= init_state().regs);
            assert(vm@.mem =~= init_state().mem);
            assert(vm@ =~= init_state());
        }
        vm
    }

    /// The dispatch loop: fetch the instruction under the pointer,
    /// increment the pointer, execute the instruction, and repeat until
    /// the run stops — by `Halt`, by the pointer leaving the program, or
    /// by the fatal arithmetic fault.
    ///
    /// The final state is the unique stopped state that iterating [`step`]
    /// from the starting state reaches ([`crate::state::lemma_final_state_unique`]
    /// turns the existential into that uniqueness).  The loop provably
    /// terminates for every program: offsets are unsigned, so only
    /// `Return` can move the pointer backwards, and each `Return` consumes
    /// a stack entry some earlier `Call` paid for.
    pub fn run(&mut self)
        requires
            old(self).wf(),
            old(self).status is Running,
        ensures
            final(self).wf(),
            final(self).program@ == old(self).program@,
            !(final(self)@.status is Running),
            exists|n: nat| final(self)@ == steps(old(self).program@, old(self)@, n),
    {
        let ghost prog = self.program@;
        let ghost init = self@;
        proof {
            assert(init == steps(prog, init, 0));
        }
        loop
            invariant_except_break
                self.status is Running,
            invariant
                self.wf(),
                self.program@ == prog,
                exists|n: nat| self@ == steps(prog, init, n),
            ensures
                self.wf(),
                self.program@ == prog,
                !(self.status is Running),
                exists|n: nat| self@ == steps(prog, init, n),
            decreases run_measure(prog.len(), self.stack@, self.ip),
        {
            let ghost pre = self@;
            if self.ip >= self.program.len() {
                self.status = Status::Halted;
                proof {
                    let n = choose|n: nat| pre == steps(prog, init, n);
                    assert(self@ == step(prog, pre));
                    assert(self@ == steps(prog, init, n + 1));
                }
                break;
            }
            let inst = self.program[self.ip];
            self.ip = self.ip + 1;
            match inst {
                Instruction::SetReg(register_index, value) => {
                    self.set_reg(register_index, value);
                },
                Instruction::Add(reg_a, reg_b, target) => {
                    self.add(reg_a, reg_b, target);
                },
                Instruction::Sub(reg_a, reg_b, target) => {
                    self.sub(reg_a, reg_b, target);
                },
                Instruction::Mul(reg_a, reg_b, target) => {
                    self.mul(reg_a, reg_b, target);
                },
                Instruction::Div(reg_a, reg_b, target) => {
                    self.div(reg_a, reg_b, target);
                },
                Instruction::Mod(reg_a, reg_b, target) => {
                    self.mod_op(reg_a, reg_b, target);
                },
                Instruction::Eq(reg_a, reg_b, target) => {
                    self.eq(reg_a, reg_b, target);
                },
                Instruction::Neq(reg_a, reg_b, target) => {
                    self.neq(reg_a, reg_b, target);
                },
                Instruction::Gt(reg_a, reg_b, target) => {
                    self.gt(reg_a, reg_b, target);
                },
                Instruction::Lt(reg_a, reg_b, target) => {
                    self.lt(reg_a, reg_b, target);
                },
                Instruction::Gte(reg_a, reg_b, target) => {
                    self.gte(reg_a, reg_b, target);
                },
                Instruction::Lte(reg_a, reg_b, target) => {
                    self.lte(reg_a, reg_b, target);
                },
                Instruction::Jump(ip_offset) => {
                    self.jump(ip_offset);
                },
                Instruction::JumpIfZero(register_index, ip_offset) => {
                    self.jump_if_zero(register_index, ip_offset);
                },
                Instruction::JumpIfNonZero(register_index, ip_offset) => {
                    self.jump_if_non_zero(register_index, ip_offset);
                },
                Instruction::Print(register_index) => {
                    self.print(register_index);
                },
                Instruction::Halt => {
                    self.status = Status::Halted;
                },
                Instruction::AllocateMemory(size) => {
                    self.allocate_memory(size);
                },
                Instruction::FreeMemory(address) => {
                    self.free_memory(address);
                },
                Instruction::StoreToMemory(address, register_index, offset) => {
                    self.store_to_memory(address, register_index, offset);
                },
                Instruction::LoadFromMemory(address, register_index) => {
                    self.load_from_memory(address, register_index);
                },
                Instruction::Call(ip_offset) => {
                    self.call(ip_offset);
                },
                Instruction::Return => {
                    self.return_from_function();
                },
            }
            proof {
                assert(self@ == step(prog, pre));
                let n = choose|n: nat| pre == steps(prog, init, n);
                assert(self@ == steps(prog, init, n + 1));
                if self.status is Running {
                    lemma_step_decreases_measure(prog, pre);
                }
            }
            if matches!(self.status, Status::Halted | Status::Faulted) {
                break;
            }
        }
    }

    /// `SetReg`: store the immediate into the register, or report an
    /// invalid index and change nothing.
    pub fn set_reg(&mut self, register_index: usize, value: i32)
        requires
            old(self).wf(),
        ensures
            final(self).wf(),
            final(self).program@ == old(self).program@,
            final(self)@ == step_set_reg(old(self)@, register_index, value),
    {
        if register_index < self.registers.len() {
            self.registers.set(register_index, value);
            self.trace.push(Event::RegisterSet { register: register_index, value });
        } else {
            self.trace.push(Event::InvalidRegister);
        }
    }

    /// Shared handler of the five arithmetic instructions: read both
    /// operand registers, then write the operation's result to the target.
    /// Division or remainder by zero is the engine's one fatal condition:
    /// the run stops in the `Faulted` state and no register changes.
    pub fn binary_op(&mut self, reg_a: usize, reg_b: usize, target_register: usize, op: BinOp)
        requires
            old(self).wf(),
        ensures
            final(self).wf(),
            final(self).program@ == old(self).program@,
            final(self)@ == step_binary(old(self)@, op, reg_a, reg_b, target_register),
    {
        if reg_a < self.registers.len() && reg_b < self.registers.len() && target_register
            < self.registers.len() {
            let x = self.registers[reg_a];
            let y = self.registers[reg_b];
            if matches!(op, BinOp::Div | BinOp::Mod) && y == 0 {
                self.status = Status::Faulted;
            } else {
                let result = eval_bin(op, x, y);
                self.registers.set(target_register, result);
                self.trace.push(
                    Event::Arithmetic { op, lhs: x, rhs: y, result, target: target_register },
                );
            }
        } else {
            self.trace.push(Event::InvalidRegister);
        }
    }

    /// `Add`: wrapping addition of two registers into a target register.
    pub fn add(&mut self, reg_a: usize, reg_b: usize, target_register: usize)
        requires
            old(self).wf(),
        ensures
            final(self).wf(),
            final(self).program@ == old(self).program@,
            final(self)@ == step_binary(old(self)@, BinOp::Add, reg_a, reg_b, target_register),
    {
        self.binary_op(reg_a, reg_b, target_register, BinOp::Add);
    }

    /// `Sub`: wrapping subtraction of two registers into a target register.
    pub fn sub(&mut self, reg_a: usize, reg_b: usize, target_register: usize)
        requires
            old(self).wf(),
        ensures
            final(self).wf(),
            final(self).program@ == old(self).program@,
            final(self)@ == step_binary(old(self)@, BinOp::Sub, reg_a, reg_b, target_register),
    {
        self.binary_op(reg_a, reg_b, target_register, BinOp::Sub);
    }

    /// `Mul`: wrapping multiplication of two registers into a target register.
    pub fn mul(&mut self, reg_a: usize, reg_b: usize, target_register: usize)
        requires
            old(self).wf(),
        ensures
            final(self).wf(),
            final(self).program@ == old(self).program@,
            final(self)@ == step_binary(old(self)@, BinOp::Mul, reg_a, reg_b, target_register),
    {
        self.binary_op(reg_a, reg_b, target_register, BinOp::Mul);
    }

    /// `Div`: truncating division of two registers into a target register;
    /// division by zero stops the run in the `Faulted` state.
    pub fn div(&mut self, reg_a: usize, reg_b: usize, target_register: usize)
        requires
            old(self).wf(),
        ensures
            final(self).wf(),
            final(self).program@ == old(self).program@,
            final(self)@ == step_binary(old(self)@, BinOp::Div, reg_a, reg_b, target_register),
    {
        self.binary_op(reg_a, reg_b, target_register, BinOp::Div);
    }

    /// `Mod`: truncating remainder of two registers into a target register;
    /// remainder by zero stops the run in the `Faulted` state.
    pub fn mod_op(&mut self, reg_a: usize, reg_b: usize, target_register: usize)
        requires
            old(self).wf(),
        ensures
            final(self).wf(),
            final(self).program@ == old(self).program@,
            final(self)@ == step_binary(old(self)@, BinOp::Mod, reg_a, reg_b, target_register),
    {
        self.binary_op(reg_a, reg_b, target_register, BinOp::Mod);
    }

    /// Shared handler of the six comparison instructions: the target
    /// register receives 1 if the predicate holds and 0 otherwise.
    pub fn compare_op(&mut self, reg_a: usize, reg_b: usize, target_register: usize, op: CmpOp)
        requires
            old(self).wf(),
        ensures
            final(self).wf(),
            final(self).program@ == old(self).program@,
            final(self)@ == step_compare(old(self)@, op, reg_a, reg_b, target_register),
    {
        if reg_a < self.registers.len() && reg_b < self.registers.len() && target_register
            < self.registers.len() {
            let x = self.registers[reg_a];
            let y = self.registers[reg_b];
            let result: i32 = if eval_cmp(op, x, y) {
                1
            } else {
                0
            };
            self.registers.set(target_register, result);
            self.trace.push(
                Event::Comparison { op, lhs: x, rhs: y, result, target: target_register },
            );
        } else {
            self.trace.push(Event::InvalidRegister);
        }
    }

    /// `Eq`: 1 in the target register if the operands are equal, else 0.
    pub fn eq(&mut self, reg_a: usize, reg_b: usize, target_register: usize)
        requires
            old(self).wf(),
        ensures
            final(self).wf(),
            final(self).program@ == old(self).program@,
            final(self)@ == step_compare(old(self)@, CmpOp::Eq, reg_a, reg_b, target_register),
    {
        self.compare_op(reg_a, reg_b, target_register, CmpOp::Eq);
    }

    /// `Neq`: 1 in the target register if the operands differ, else 0.
    pub fn neq(&mut self, reg_a: usize, reg_b: usize, target_register: usize)
        requires
            old(self).wf(),
        ensures
            final(self).wf(),
            final(self).program@ == old(self).program@,
            final(self)@ == step_compare(old(self)@, CmpOp::Neq, reg_a, reg_b, target_register),
    {
        self.compare_op(reg_a, reg_b, target_register, CmpOp::Neq);
    }

    /// `Gt`: 1 in the target register if the first operand is greater.
    pub fn gt(&mut self, reg_a: usize, reg_b: usize, target_register: usize)
        requires
            old(self).wf(),
        ensures
            final(self).wf(),
            final(self).program@ == old(self).program@,
            final(self)@ == step_compare(old(self)@, CmpOp::Gt, reg_a, reg_b, target_register),
    {
        self.compare_op(reg_a, reg_b, target_register, CmpOp::Gt);
    }

    /// `Lt`: 1 in the target register if the first operand is smaller.
    pub fn lt(&mut self, reg_a: usize, reg_b: usize, target_register: usize)
        requires
            old(self).wf(),
        ensures
            final(self).wf(),
            final(self).program@ == old(self).program@,
            final(self)@ == step_compare(old(self)@, CmpOp::Lt, reg_a, reg_b, target_register),
    {
        self.compare_op(reg_a, reg_b, target_register, CmpOp::Lt);
    }

    /// `Gte`: 1 in the target register if the first operand is at least the
    /// second.
    pub fn gte(&mut self, reg_a: usize, reg_b: usize, target_register: usize)
        requires
            old(self).wf(),
        ensures
            final(self).wf(),
            final(self).program@ == old(self).program@,
            final(self)@ == step_compare(old(self)@, CmpOp::Gte, reg_a, reg_b, target_register),
    {
        self.compare_op(reg_a, reg_b, target_register, CmpOp::Gte);
    }

    /// `Lte`: 1 in the target register if the first operand is at most the
    /// second.
    pub fn lte(&mut self, reg_a: usize, reg_b: usize, target_register: usize)
        requires
            old(self).wf(),
        ensures
            final(self).wf(),
            final(self).program@ == old(self).program@,
            final(self)@ == step_compare(old(self)@, CmpOp::Lte, reg_a, reg_b, target_register),
    {
        self.compare_op(reg_a, reg_b, target_register, CmpOp::Lte);
    }

    /// `AllocateMemory`: reserve a zero-filled region of exactly `size`
    /// bytes at the cursor and advance the cursor by `size`.  A size of
    /// zero is legal and yields a zero-length region.
    pub fn allocate_memory(&mut self, size: usize)
        requires
            old(self).wf(),
        ensures
            final(self).wf(),
            final(self).program@ == old(self).program@,
            final(self)@ == step_allocate(old(self)@, size),
    {
        let address = self.next_free_address;
        let mut data: Vec<u8> = Vec::new();
        let mut i: usize = 0;
        while i < size
            invariant
                i <= size,
                data@ == Seq::new(i as nat, |j: int| 0u8),
            decreases size - i,
        {
            data.push(0);
            i = i + 1;
            proof {
                assert(data@ =~= Seq::new(i as nat, |j: int| 0u8));
            }
        }
        self.memory.insert(address, MemoryRegion { size, data });
        self.next_free_address = self.next_free_address.saturating_add(size);
        self.trace.push(Event::Allocated { address, size });
        proof {
            assert(self@.mem =~= step_allocate(old(self)@, size).mem);
            assert(self@ =~= step_allocate(old(self)@, size));
        }
    }

    /// `FreeMemory`: remove the region at the address if one is live,
    /// otherwise report that none was found.  The cursor is unaffected, so
    /// the freed address is never handed out again.
    pub fn free_memory(&mut self, address: usize)
        requires
            old(self).wf(),
        ensures
            final(self).wf(),
            final(self).program@ == old(self).program@,
            final(self)@ == step_free(old(self)@, address),
    {
        if self.memory.remove(&address).is_some() {
            self.trace.push(Event::Freed { address });
        } else {
            self.trace.push(Event::RegionNotFound { address });
        }
        proof {
            assert(self@.mem =~= step_free(old(self)@, address).mem);
            assert(self@ =~= step_free(old(self)@, address));
        }
    }

    /// `StoreToMemory`: write the low byte of the register into the region
    /// at the given offset.  A missing region, an offset past the end of
    /// the region, or a bad register index is reported and nothing changes.
    pub fn store_to_memory(&mut self, address: usize, register_index: usize, offset: usize)
        requires
            old(self).wf(),
        ensures
            final(self).wf(),
            final(self).program@ == old(self).program@,
            final(self)@ == step_store(old(self)@, address, register_index, offset),
    {
        match self.memory.remove(&address) {
            Some(region) => {
                let mut region = region;
                if offset < region.size {
                    if register_index < self.registers.len() {
                        let value = self.registers[register_index];
                        region.data.set(offset, eval_low_byte(value));
                        self.memory.insert(address, region);
                        self.trace.push(
                            Event::Stored { address, offset, register: register_index, value },
                        );
                    } else {
                        self.memory.insert(address, region);
                        self.trace.push(Event::InvalidRegister);
                    }
                } else {
                    self.memory.insert(address, region);
                    self.trace.push(Event::OffsetOutOfBounds);
                }
            },
            None => {
                self.trace.push(Event::RegionNotFound { address });
            },
        }
        proof {
            assert(self@.mem =~= step_store(old(self)@, address, register_index, offset).mem);
            assert(self@ =~= step_store(old(self)@, address, register_index, offset));
        }
    }

    /// `LoadFromMemory`: read the first byte of the region at the address,
    /// zero-extended, into the register.  Only offset 0 can be loaded.  A
    /// zero-length region is a bounds failure, not a default-zero read.
    pub fn load_from_memory(&mut self, address: usize, register_index: usize)
        requires
            old(self).wf(),
        ensures
            final(self).wf(),
            final(self).program@ == old(self).program@,
            final(self)@ == step_load(old(self)@, address, register_index),
    {
        match self.memory.get(&address) {
            Some(region) => {
                if region.size == 0 {
                    self.trace.push(Event::OffsetOutOfBounds);
                } else if register_index < self.registers.len() {
                    let value = region.data[0] as i32;
                    self.registers.set(register_index, value);
                    self.trace.push(Event::Loaded { address, register: register_index, value });
                } else {
                    self.trace.push(Event::InvalidRegister);
                }
            },
            None => {
                self.trace.push(Event::RegionNotFound { address });
            },
        }
    }

    /// `Jump`: move the pointer forward by the offset if the target stays
    /// inside the program; otherwise report an invalid jump and leave the
    /// pointer alone.
    pub fn jump(&mut self, ip_offset: usize)
        requires
            old(self).wf(),
        ensures
            final(self).wf(),
            final(self).program@ == old(self).program@,
            final(self)@ == step_jump(old(self)@, ip_offset, old(self).program@.len()),
    {
        let l = self.program.len();
        if self.ip < l && ip_offset < l - self.ip {
            self.ip = self.ip + ip_offset;
            self.trace.push(Event::Jumped { target: self.ip });
        } else {
            self.trace.push(Event::InvalidJump);
        }
    }

    /// `JumpIfZero`: jump by the offset exactly when the register holds
    /// zero.
    pub fn jump_if_zero(&mut self, register_index: usize, ip_offset: usize)
        requires
            old(self).wf(),
        ensures
            final(self).wf(),
            final(self).program@ == old(self).program@,
            final(self)@ == step_jump_if_zero(
                old(self)@,
                register_index,
                ip_offset,
                old(self).program@.len(),
            ),
    {
        if register_index < self.registers.len() {
            if self.registers[register_index] == 0 {
                self.jump(ip_offset);
            }
        } else {
            self.trace.push(Event::InvalidRegister);
        }
    }

    /// `JumpIfNonZero`: jump by the offset exactly when the register is
    /// non-zero.
    pub fn jump_if_non_zero(&mut self, register_index: usize, ip_offset: usize)
        requires
            old(self).wf(),
        ensures
            final(self).wf(),
            final(self).program@ == old(self).program@,
            final(self)@ == step_jump_if_non_zero(
                old(self)@,
                register_index,
                ip_offset,
                old(self).program@.len(),
            ),
    {
        if register_index < self.registers.len() {
            if self.registers[register_index] != 0 {
                self.jump(ip_offset);
            }
        } else {
            self.trace.push(Event::InvalidRegister);
        }
    }

    /// `Print`: emit the register's value to the trace; no state changes.
    pub fn print(&mut self, register_index: usize)
        requires
            old(self).wf(),
        ensures
            final(self).wf(),
            final(self).program@ == old(self).program@,
            final(self)@ == step_print(old(self)@, register_index),
    {
        if register_index < self.registers.len() {
            let value = self.registers[register_index];
            self.trace.push(Event::Printed { register: register_index, value });
        } else {
            self.trace.push(Event::InvalidRegister);
        }
    }

    /// `Call`: push the current position onto the call stack, then move the
    /// pointer forward by the offset, unconditionally.  An out-of-range
    /// target is caught by the next fetch, which halts.
    pub fn call(&mut self, ip_offset: usize)
        requires
            old(self).wf(),
        ensures
            final(self).wf(),
            final(self).program@ == old(self).program@,
            final(self)@ == step_call(old(self)@, ip_offset),
    {
        self.stack.push(self.ip);
        self.ip = self.ip.saturating_add(ip_offset);
        self.trace.push(Event::Called { target: self.ip });
    }

    /// `Return`: pop the call stack and resume at the popped position; a
    /// stray `Return` on an empty stack is silently a no-op.
    pub fn return_from_function(&mut self)
        requires
            old(self).wf(),
        ensures
            final(self).wf(),
            final(self).program@ == old(self).program@,
            final(self)@ == step_return(old(self)@),
    {
        match self.stack.pop() {
            Some(return_address) => {
                self.ip = return_address;
            },
            None => {},
        }
    }
}

} // verus!
