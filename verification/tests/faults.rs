use chip8::cpu::CPU;
use chip8::machine::{Fault, Status};
use chip8::stack::CallStack;

#[test]
fn sixteen_nested_calls_fit_and_the_seventeenth_overflows() {
    let mut cpu = CPU::new();
    // at every even address a call of the next even address
    for k in 0..17usize {
        cpu.memory[2 * k] = 0x20;
        cpu.memory[2 * k + 1] = (2 * k + 2) as u8;
    }
    for k in 0..16usize {
        assert_eq!(cpu.step(), Ok(Status::Running));
        assert_eq!(cpu.stack.len(), k + 1);
        assert_eq!(cpu.memory_position, 2 * k + 2);
    }
    let registers = cpu.registers;
    assert_eq!(cpu.step(), Err(Fault::StackOverflow));
    assert_eq!(cpu.stack.len(), 16);
    assert_eq!(cpu.memory_position, 0x22);
    assert_eq!(cpu.registers, registers);
}

#[test]
fn sixteen_nested_calls_unwind_in_reverse_order() {
    let mut cpu = CPU::new();
    for k in 0..16u16 {
        cpu.memory_position = (0x100 + k) as usize;
        assert_eq!(cpu.call(0x200), Ok(()));
    }
    assert_eq!(cpu.call(0x300), Err(Fault::StackOverflow));
    assert_eq!(cpu.memory_position, 0x200);
    for k in (0..16u16).rev() {
        assert_eq!(cpu.ret(), Ok(()));
        assert_eq!(cpu.memory_position, (0x100 + k) as usize);
    }
    assert_eq!(cpu.ret(), Err(Fault::StackUnderflow));
}

#[test]
fn ret_with_no_call_underflows() {
    let mut cpu = CPU::new();
    cpu.memory[0] = 0x00;
    cpu.memory[1] = 0xEE;
    assert_eq!(cpu.step(), Err(Fault::StackUnderflow));
    assert_eq!(cpu.memory_position, 2);
    assert_eq!(cpu.stack.len(), 0);
}

#[test]
fn unimplemented_opcode_carries_the_word() {
    for word in [0xFFFFu16, 0x00E0, 0x8015, 0x5011, 0x9120, 0x0001] {
        let mut cpu = CPU::new();
        cpu.registers[0] = 3;
        cpu.memory[0] = (word >> 8) as u8;
        cpu.memory[1] = (word & 0xFF) as u8;
        assert_eq!(cpu.run(), Err(Fault::UnimplementedOpcode { word }));
        assert_eq!(cpu.memory_position, 2);
        assert_eq!(cpu.registers[0], 3);
    }
}

#[test]
fn unimplemented_opcode_stops_the_program() {
    let mut cpu = CPU::new();
    // load, unknown word, load
    let program = [0x60u8, 0x01, 0xF1, 0x23, 0x61, 0x02];
    for (i, byte) in program.iter().enumerate() {
        cpu.memory[i] = *byte;
    }
    assert_eq!(cpu.run(), Err(Fault::UnimplementedOpcode { word: 0xF123 }));
    assert_eq!(cpu.registers[0], 1);
    assert_eq!(cpu.registers[1], 0);
    assert_eq!(cpu.memory_position, 4);
}

#[test]
fn fetch_of_the_last_slot_is_in_bounds() {
    let mut cpu = CPU::new();
    cpu.memory[0xFFE] = 0x6A;
    cpu.memory[0xFFF] = 0x42;
    cpu.memory_position = 0xFFE;
    assert_eq!(cpu.read_op_code(), Ok(0x6A42));
    assert_eq!(cpu.step(), Ok(Status::Running));
    assert_eq!(cpu.registers[0xA], 0x42);
    assert_eq!(cpu.memory_position, 0x1000);
    assert_eq!(cpu.step(), Err(Fault::OutOfBoundsFetch { address: 0x1000 }));
    assert_eq!(cpu.memory_position, 0x1000);
}

#[test]
fn fetch_of_half_a_word_is_out_of_bounds() {
    let mut cpu = CPU::new();
    cpu.memory[0xFFF] = 0x60;
    cpu.memory_position = 0xFFF;
    assert_eq!(cpu.read_op_code(), Err(Fault::OutOfBoundsFetch { address: 0xFFF }));
    assert_eq!(cpu.step(), Err(Fault::OutOfBoundsFetch { address: 0xFFF }));
    assert_eq!(cpu.memory_position, 0xFFF);
    assert_eq!(cpu.run(), Err(Fault::OutOfBoundsFetch { address: 0xFFF }));
}

#[test]
fn fetch_far_outside_memory_is_out_of_bounds() {
    let mut cpu = CPU::new();
    cpu.memory_position = usize::MAX;
    assert_eq!(cpu.step(), Err(Fault::OutOfBoundsFetch { address: usize::MAX }));
    assert_eq!(cpu.memory_position, usize::MAX);
    cpu.memory_position = 0x1000;
    assert_eq!(cpu.run_cycles(5), Err(Fault::OutOfBoundsFetch { address: 0x1000 }));
}

#[test]
fn jump_to_the_last_byte_faults_on_the_next_fetch() {
    let mut cpu = CPU::new();
    cpu.memory[0] = 0x1F;
    cpu.memory[1] = 0xFF;
    assert_eq!(cpu.step(), Ok(Status::Running));
    assert_eq!(cpu.memory_position, 0xFFF);
    assert_eq!(cpu.step(), Err(Fault::OutOfBoundsFetch { address: 0xFFF }));
}

#[test]
fn running_off_the_end_of_memory_faults() {
    let mut cpu = CPU::new();
    for slot in 0..0x800usize {
        cpu.memory[2 * slot] = 0x70;
        cpu.memory[2 * slot + 1] = 0x01;
    }
    assert_eq!(cpu.run(), Err(Fault::OutOfBoundsFetch { address: 0x1000 }));
    assert_eq!(cpu.registers[0], 0);
    assert_eq!(cpu.registers[0xF], 0);
}

#[test]
fn faults_are_distinct() {
    let all = [
        Fault::StackOverflow,
        Fault::StackUnderflow,
        Fault::UnimplementedOpcode { word: 0 },
        Fault::UnimplementedOpcode { word: 1 },
        Fault::OutOfBoundsFetch { address: 0 },
        Fault::OutOfBoundsFetch { address: 1 },
    ];
    for (i, a) in all.iter().enumerate() {
        for (j, b) in all.iter().enumerate() {
            assert_eq!(a == b, i == j);
        }
    }
    assert_ne!(Status::Running, Status::Halted);
}

#[test]
fn call_stack_is_last_in_first_out() {
    let mut stack = CallStack::new();
    assert_eq!(stack.len(), 0);
    assert_eq!(stack.pop(), Err(Fault::StackUnderflow));
    assert_eq!(stack.push(0x111), Ok(()));
    assert_eq!(stack.push(0x222), Ok(()));
    assert_eq!(stack.len(), 2);
    assert_eq!(stack.pop(), Ok(0x222));
    assert_eq!(stack.push(0x333), Ok(()));
    assert_eq!(stack.pop(), Ok(0x333));
    assert_eq!(stack.pop(), Ok(0x111));
    assert_eq!(stack.len(), 0);
    assert_eq!(stack.pop(), Err(Fault::StackUnderflow));
}

#[test]
fn call_stack_holds_sixteen_frames() {
    let mut stack = CallStack::new();
    for k in 0..16u16 {
        assert_eq!(stack.push(k), Ok(()));
    }
    assert_eq!(stack.len(), 16);
    assert_eq!(stack.push(99), Err(Fault::StackOverflow));
    assert_eq!(stack.len(), 16);
    for k in (0..16u16).rev() {
        assert_eq!(stack.pop(), Ok(k));
    }
    assert_eq!(stack.len(), 0);
}

#[test]
fn fresh_call_stack_has_sixteen_zero_slots() {
    let stack = CallStack::new();
    for index in 0..16usize {
        assert_eq!(stack.slot(index), 0);
    }
}

#[test]
fn freed_slot_keeps_its_value() {
    let mut stack = CallStack::new();
    assert_eq!(stack.push(0x0ABC), Ok(()));
    assert_eq!(stack.push(0x0DEF), Ok(()));
    assert_eq!(stack.pop(), Ok(0x0DEF));
    assert_eq!(stack.len(), 1);
    assert_eq!(stack.slot(0), 0x0ABC);
    assert_eq!(stack.slot(1), 0x0DEF);
    assert_eq!(stack.slot(2), 0);
    assert_eq!(stack.push(0x0123), Ok(()));
    assert_eq!(stack.slot(1), 0x0123);
}

#[test]
fn instructions_outside_call_leave_every_slot_alone() {
    let mut cpu = CPU::new();
    cpu.memory_position = 0x040;
    assert_eq!(cpu.call(0x000), Ok(()));
    assert_eq!(cpu.ret(), Ok(()));
    assert_eq!(cpu.stack.slot(0), 0x040);
    // load, add, or, and, xor, add with carry, three skips not taken, jump
    let program = [
        0x61FFu16, 0x7105, 0x8121, 0x8122, 0x8123, 0x8114, 0x3101, 0x4100, 0x5120, 0x1200,
    ];
    cpu.registers[2] = 0x0F;
    cpu.memory_position = 0;
    for (i, word) in program.iter().enumerate() {
        cpu.memory[2 * i] = (word >> 8) as u8;
        cpu.memory[2 * i + 1] = (word & 0xFF) as u8;
    }
    cpu.memory[0x200] = 0xF0;
    cpu.memory[0x201] = 0x00;
    assert_eq!(cpu.run(), Err(Fault::UnimplementedOpcode { word: 0xF000 }));
    assert_eq!(cpu.memory_position, 0x202);
    assert_eq!(cpu.registers[1], 0);
    assert_eq!(cpu.stack.len(), 0);
    assert_eq!(cpu.stack.slot(0), 0x040);
    for index in 1..16usize {
        assert_eq!(cpu.stack.slot(index), 0);
    }
}

#[test]
fn call_writes_the_return_address_into_the_lowest_free_slot() {
    let mut cpu = CPU::new();
    cpu.memory[0] = 0x23;
    cpu.memory[1] = 0x00;
    cpu.memory[0x300] = 0x24;
    cpu.memory[0x301] = 0x00;
    assert_eq!(cpu.run_cycles(2), Ok(Status::Running));
    assert_eq!(cpu.stack.len(), 2);
    assert_eq!(cpu.stack.slot(0), 0x002);
    assert_eq!(cpu.stack.slot(1), 0x302);
    assert_eq!(cpu.stack.slot(2), 0);
    assert_eq!(cpu.memory_position, 0x400);
}
