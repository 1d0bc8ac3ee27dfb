use regvm::event::Event;
use regvm::event::Status;
use regvm::instruction::Instruction;
use regvm::machine::VM;

#[test]
fn test_multiplication() {
    let mut vm = VM::new(vec![
        Instruction::SetReg(0, 6),
        Instruction::SetReg(1, 7),
        Instruction::Mul(0, 1, 2),
    ]);
    vm.run();
    assert_eq!(vm.registers[2], 42);
}

#[test]
fn test_division_truncates_toward_zero() {
    let mut vm = VM::new(vec![
        Instruction::SetReg(0, -7),
        Instruction::SetReg(1, 2),
        Instruction::Div(0, 1, 2),
    ]);
    vm.run();
    assert_eq!(vm.registers[2], -3);
    assert_eq!(vm.status, Status::Halted);
}

#[test]
fn test_remainder_truncates_toward_zero() {
    let mut vm = VM::new(vec![
        Instruction::SetReg(0, -7),
        Instruction::SetReg(1, 2),
        Instruction::Mod(0, 1, 2),
    ]);
    vm.run();
    assert_eq!(vm.registers[2], -1);
}

#[test]
fn test_division_by_zero_faults() {
    let mut vm = VM::new(vec![
        Instruction::SetReg(0, 5),
        Instruction::Div(0, 1, 2),
        Instruction::SetReg(3, 1), // must never execute
    ]);
    vm.run();
    assert_eq!(vm.status, Status::Faulted);
    assert_eq!(vm.registers[2], 0); // no silently wrong result was written
    assert_eq!(vm.registers[3], 0); // execution stopped at the fault
}

#[test]
fn test_remainder_by_zero_faults() {
    let mut vm = VM::new(vec![
        Instruction::SetReg(0, 5),
        Instruction::Mod(0, 1, 2),
    ]);
    vm.run();
    assert_eq!(vm.status, Status::Faulted);
    assert_eq!(vm.registers[2], 0);
}

#[test]
fn test_addition_wraps_on_overflow() {
    let mut vm = VM::new(vec![
        Instruction::SetReg(0, i32::MAX),
        Instruction::SetReg(1, 1),
        Instruction::Add(0, 1, 2),
    ]);
    vm.run();
    assert_eq!(vm.registers[2], i32::MIN);
}

#[test]
fn test_add_may_target_its_own_operand() {
    // Both operands are read before the target is written.
    let mut vm = VM::new(vec![
        Instruction::SetReg(0, 2),
        Instruction::SetReg(1, 3),
        Instruction::Add(0, 1, 0),
    ]);
    vm.run();
    assert_eq!(vm.registers[0], 5);
    assert_eq!(vm.registers[1], 3);
}

#[test]
fn test_comparisons() {
    let mut vm = VM::new(vec![
        Instruction::SetReg(0, 4),
        Instruction::SetReg(1, 9),
        Instruction::Eq(0, 1, 2),
        Instruction::Neq(0, 1, 3),
        Instruction::Gt(0, 1, 4),
        Instruction::Lt(0, 1, 5),
        Instruction::Gte(0, 1, 6),
        Instruction::Lte(0, 1, 7),
    ]);
    vm.run();
    assert_eq!(vm.registers[2], 0); // 4 == 9 is false
    assert_eq!(vm.registers[3], 1); // 4 != 9
    assert_eq!(vm.registers[4], 0); // 4 > 9 is false
    assert_eq!(vm.registers[5], 1); // 4 < 9
    assert_eq!(vm.registers[6], 0); // 4 >= 9 is false
    assert_eq!(vm.registers[7], 1); // 4 <= 9
}

#[test]
fn test_allocation_addresses_survive_free() {
    // Freeing never rolls the cursor back: the third allocation lands at
    // the sum of the first two sizes, not at the freed address.
    let mut vm = VM::new(vec![
        Instruction::AllocateMemory(100),
        Instruction::AllocateMemory(200),
        Instruction::FreeMemory(0),
        Instruction::AllocateMemory(50),
    ]);
    vm.run();
    assert!(vm.memory.contains_key(&300));
    assert!(!vm.memory.contains_key(&0));
    assert_eq!(vm.next_free_address, 350);
}

#[test]
fn test_zero_size_allocation_is_legal() {
    let mut vm = VM::new(vec![Instruction::AllocateMemory(0)]);
    vm.run();
    assert!(vm.memory.contains_key(&0));
    assert_eq!(vm.next_free_address, 0);
}

#[test]
fn test_store_truncates_to_low_byte() {
    let mut vm = VM::new(vec![
        Instruction::AllocateMemory(1),
        Instruction::SetReg(0, 300),
        Instruction::StoreToMemory(0, 0, 0),
        Instruction::LoadFromMemory(0, 1),
    ]);
    vm.run();
    assert_eq!(vm.registers[1], 44); // 300 mod 256
}

#[test]
fn test_store_negative_value_loads_low_byte_zero_extended() {
    let mut vm = VM::new(vec![
        Instruction::AllocateMemory(1),
        Instruction::SetReg(0, -1),
        Instruction::StoreToMemory(0, 0, 0),
        Instruction::LoadFromMemory(0, 1),
    ]);
    vm.run();
    assert_eq!(vm.registers[1], 255);
}

#[test]
fn test_load_from_empty_region_is_bounds_failure() {
    let mut vm = VM::new(vec![
        Instruction::AllocateMemory(0),
        Instruction::SetReg(1, 7),
        Instruction::LoadFromMemory(0, 1),
    ]);
    vm.run();
    assert_eq!(vm.registers[1], 7); // not a default-zero read
    assert_eq!(vm.trace.last(), Some(&Event::OffsetOutOfBounds));
}

#[test]
fn test_free_unknown_address_is_reported_and_run_continues() {
    let mut vm = VM::new(vec![
        Instruction::FreeMemory(5),
        Instruction::SetReg(0, 1),
    ]);
    vm.run();
    assert!(vm.trace.contains(&Event::RegionNotFound { address: 5 }));
    assert_eq!(vm.registers[0], 1);
    assert_eq!(vm.status, Status::Halted);
}

#[test]
fn test_store_out_of_bounds_is_reported_and_memory_unchanged() {
    let mut vm = VM::new(vec![
        Instruction::AllocateMemory(1),
        Instruction::SetReg(0, 9),
        Instruction::StoreToMemory(0, 0, 5),
        Instruction::LoadFromMemory(0, 1),
    ]);
    vm.run();
    assert!(vm.trace.contains(&Event::OffsetOutOfBounds));
    assert_eq!(vm.registers[1], 0); // the region still holds its zero byte
}

#[test]
fn test_invalid_register_is_reported_and_run_continues() {
    let mut vm = VM::new(vec![
        Instruction::SetReg(8, 5),
        Instruction::SetReg(0, 3),
    ]);
    vm.run();
    assert!(vm.trace.contains(&Event::InvalidRegister));
    assert_eq!(vm.registers[0], 3);
    assert_eq!(vm.status, Status::Halted);
}

#[test]
fn test_invalid_jump_is_a_no_op() {
    let mut vm = VM::new(vec![
        Instruction::Jump(5),
        Instruction::SetReg(0, 1),
    ]);
    vm.run();
    assert!(vm.trace.contains(&Event::InvalidJump));
    assert_eq!(vm.registers[0], 1); // the pointer was left unchanged
}

#[test]
fn test_jump_skips_instructions() {
    let mut vm = VM::new(vec![
        Instruction::Jump(1),
        Instruction::SetReg(0, 1),
        Instruction::SetReg(1, 2),
    ]);
    vm.run();
    assert_eq!(vm.registers[0], 0);
    assert_eq!(vm.registers[1], 2);
}

#[test]
fn test_jump_if_non_zero() {
    let mut vm = VM::new(vec![
        Instruction::SetReg(0, 5),
        Instruction::JumpIfNonZero(0, 1),
        Instruction::SetReg(1, 100),
        Instruction::SetReg(2, 200),
    ]);
    vm.run();
    assert_eq!(vm.registers[1], 0);
    assert_eq!(vm.registers[2], 200);
}

#[test]
fn test_halt_only_program() {
    let mut vm = VM::new(vec![Instruction::Halt]);
    vm.run();
    assert_eq!(vm.status, Status::Halted);
    assert_eq!(vm.registers, vec![0; 8]);
    assert!(vm.memory.is_empty());
    assert!(vm.trace.is_empty());
}

#[test]
fn test_end_to_end_addition_program() {
    let mut vm = VM::new(vec![
        Instruction::SetReg(0, 42),
        Instruction::SetReg(1, 58),
        Instruction::Add(0, 1, 2),
        Instruction::Halt,
    ]);
    vm.run();
    assert_eq!(vm.registers, vec![42, 58, 100, 0, 0, 0, 0, 0]);
    assert_eq!(vm.status, Status::Halted);
}

#[test]
fn test_conditional_skip_of_one_instruction() {
    // An offset of 1 from the already-incremented pointer skips exactly
    // the next instruction.
    let mut vm = VM::new(vec![
        Instruction::SetReg(0, 0),
        Instruction::JumpIfZero(0, 1),
        Instruction::SetReg(1, 100),
        Instruction::SetReg(2, 200),
    ]);
    vm.run();
    assert_eq!(vm.registers[1], 0); // skipped
    assert_eq!(vm.registers[2], 200);
}

#[test]
fn test_conditional_jump_to_program_end_is_invalid() {
    // From the pointer already moved past the jump, an offset of 2 in this
    // four-instruction program lands exactly at the end, which the bounds
    // check rejects: the jump is a no-op and the next instruction runs.
    let mut vm = VM::new(vec![
        Instruction::SetReg(0, 0),
        Instruction::JumpIfZero(0, 2),
        Instruction::SetReg(1, 100),
        Instruction::SetReg(2, 200),
    ]);
    vm.run();
    assert!(vm.trace.contains(&Event::InvalidJump));
    assert_eq!(vm.registers[1], 100); // not skipped
    assert_eq!(vm.registers[2], 200);
}

#[test]
fn test_stray_return_is_a_silent_no_op() {
    let mut vm = VM::new(vec![
        Instruction::Return,
        Instruction::SetReg(0, 7),
    ]);
    vm.run();
    assert_eq!(vm.registers[0], 7);
    assert_eq!(vm.status, Status::Halted);
    assert_eq!(vm.trace, vec![Event::RegisterSet { register: 0, value: 7 }]);
}

#[test]
fn test_call_and_return_resume_after_call_with_registers_visible() {
    let mut vm = VM::new(vec![
        Instruction::Call(1),       // call the region starting two below
        Instruction::Halt,          // resumed here after the return
        Instruction::SetReg(4, 33), // runs inside the call
        Instruction::Return,
    ]);
    vm.run();
    assert_eq!(vm.registers[4], 33); // mutation inside the call stays visible
    assert_eq!(vm.status, Status::Halted);
    assert!(vm.stack.is_empty());
}

#[test]
fn test_call_past_program_end_halts_on_next_fetch() {
    let mut vm = VM::new(vec![Instruction::Call(100)]);
    vm.run();
    assert_eq!(vm.status, Status::Halted);
    assert_eq!(vm.stack, vec![1]); // the return position was still saved
}

#[test]
fn test_print_emits_register_value() {
    let mut vm = VM::new(vec![
        Instruction::SetReg(0, 9),
        Instruction::Print(0),
    ]);
    vm.run();
    assert!(vm.trace.contains(&Event::Printed { register: 0, value: 9 }));
}

#[test]
fn test_trace_records_operations_in_order() {
    let mut vm = VM::new(vec![
        Instruction::SetReg(0, 1),
        Instruction::AllocateMemory(2),
        Instruction::FreeMemory(0),
    ]);
    vm.run();
    assert_eq!(
        vm.trace,
        vec![
            Event::RegisterSet { register: 0, value: 1 },
            Event::Allocated { address: 0, size: 2 },
            Event::Freed { address: 0 },
        ]
    );
}
