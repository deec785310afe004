//! The executable processor.

use vstd::prelude::*;
use crate::instruction::{decode, Instruction};
use crate::machine::{Fault, Machine, Status, FLAG_REGISTER, MEMORY_SIZE};
use crate::stack::CallStack;

verus! {

/// The processor: sixteen registers, a program counter, 4096 bytes of memory
/// and a call stack.
///
/// An embedder writes a program into `memory`, may seed `registers`, and then
/// runs or steps the processor. The state is read back from the same fields.
pub struct CPU {
    pub registers: [u8; 16],
    pub memory_position: usize,
    pub memory: [u8; 0x1000],
    pub stack: CallStack,
}

impl View for CPU {
    type V = Machine;

    open spec fn view(&self) -> Machine {
        Machine {
            registers: self.registers@,
            memory: self.memory@,
            pc: self.memory_position as int,
            stack: self.stack@,
        }
    }
}

impl CPU {
    /// A processor with all registers and all of memory zero, an empty call
    /// stack whose slots are all zero, and the program counter at address 0.
    pub fn new() -> (cpu: CPU)
        ensures
            cpu@ == Machine::initial(),
    {
        let cpu = CPU {
            registers: [0; 16],
            memory_position: 0,
            memory: [0; 0x1000],
            stack: CallStack::new(),
        };
        assert(cpu@.registers =~= Machine::initial().registers);
        assert(cpu@.memory =~= Machine::initial().memory);
        cpu
    }

    /// Reads the instruction word at the program counter, high byte first,
    /// without moving the program counter. Where the word's second byte would
    /// lie outside memory, the fetch is out of bounds.
    pub fn read_op_code(&self) -> (result: Result<u16, Fault>)
        ensures
            self@.can_fetch() ==> result == Ok::<u16, Fault>(self@.fetch()),
            !self@.can_fetch() ==> result == Err::<u16, Fault>(
                Fault::OutOfBoundsFetch { address: self.memory_position },
            ),
    {
        if self.memory_position >= MEMORY_SIZE - 1 {
            return Err(Fault::OutOfBoundsFetch { address: self.memory_position });
        }
        let op1 = self.memory[self.memory_position] as u16;
        let op2 = self.memory[self.memory_position + 1] as u16;
        assert((op1 << 8) | op2 == op1 * 0x100 + op2) by (bit_vector)
            requires
                op1 < 0x100,
                op2 < 0x100,
        ;
        Ok((op1 << 8) | op2)
    }

    /// Continues at `addr`. The address is not held against the size of
    /// memory: the next fetch is.
    pub fn jmp(&mut self, addr: u16)
        ensures
            final(self)@ == old(self)@.jump(addr as int),
    {
        self.memory_position = addr as usize;
    }

    /// Skips the next instruction if register `register` equals `nn`.
    pub fn se(&mut self, register: u8, nn: u8)
        requires
            register < 16,
            old(self).memory_position <= usize::MAX - 2,
        ensures
            final(self)@ == old(self)@.skip_if(old(self)@.registers[register as int] == nn),
    {
        if self.registers[register as usize] == nn {
            self.memory_position += 2;
        }
    }

    /// Skips the next instruction if register `register` differs from `nn`.
    pub fn sne(&mut self, register: u8, nn: u8)
        requires
            register < 16,
            old(self).memory_position <= usize::MAX - 2,
        ensures
            final(self)@ == old(self)@.skip_if(old(self)@.registers[register as int] != nn),
    {
        if self.registers[register as usize] != nn {
            self.memory_position += 2;
        }
    }

    /// Skips the next instruction if registers `r1` and `r2` hold the same
    /// value.
    pub fn ser(&mut self, r1: u8, r2: u8)
        requires
            r1 < 16,
            r2 < 16,
            old(self).memory_position <= usize::MAX - 2,
        ensures
            final(self)@ == old(self)@.skip_if(
                old(self)@.registers[r1 as int] == old(self)@.registers[r2 as int],
            ),
    {
        if self.registers[r1 as usize] == self.registers[r2 as usize] {
            self.memory_position += 2;
        }
    }

    /// Loads `nn` into register `register`.
    pub fn ld(&mut self, register: u8, nn: u8)
        requires
            register < 16,
        ensures
            final(self)@ == old(self)@.with_register(register as int, nn),
    {
        self.registers[register as usize] = nn;
    }

    /// Adds `nn` to register `register` modulo 256. No other register
    /// changes: this addition reports no carry.
    pub fn add(&mut self, register: u8, nn: u8)
        requires
            register < 16,
        ensures
            final(self)@ == old(self)@.with_register(
                register as int,
                ((old(self)@.registers[register as int] + nn) % 0x100) as u8,
            ),
    {
        let value = self.registers[register as usize];
        self.registers[register as usize] = value.wrapping_add(nn);
    }

    /// Bitwise or of registers `r1` and `r2` into `r1`.
    pub fn or_xy(&mut self, r1: u8, r2: u8)
        requires
            r1 < 16,
            r2 < 16,
        ensures
            final(self)@ == old(self)@.with_register(
                r1 as int,
                old(self)@.registers[r1 as int] | old(self)@.registers[r2 as int],
            ),
    {
        let r1_value = self.registers[r1 as usize];
        let r2_value = self.registers[r2 as usize];
        self.registers[r1 as usize] = r1_value | r2_value;
    }

    /// Bitwise and of registers `r1` and `r2` into `r1`.
    pub fn and_xy(&mut self, r1: u8, r2: u8)
        requires
            r1 < 16,
            r2 < 16,
        ensures
            final(self)@ == old(self)@.with_register(
                r1 as int,
                old(self)@.registers[r1 as int] & old(self)@.registers[r2 as int],
            ),
    {
        let r1_value = self.registers[r1 as usize];
        let r2_value = self.registers[r2 as usize];
        self.registers[r1 as usize] = r1_value & r2_value;
    }

    /// Bitwise exclusive or of registers `r1` and `r2` into `r1`.
    pub fn xor_xy(&mut self, r1: u8, r2: u8)
        requires
            r1 < 16,
            r2 < 16,
        ensures
            final(self)@ == old(self)@.with_register(
                r1 as int,
                old(self)@.registers[r1 as int] ^ old(self)@.registers[r2 as int],
            ),
    {
        let r1_value = self.registers[r1 as usize];
        let r2_value = self.registers[r2 as usize];
        self.registers[r1 as usize] = r1_value ^ r2_value;
    }

    /// Adds register `y` to register `x` modulo 256, then writes the carry
    /// into the flag register: 1 if the sum did not fit in eight bits, else 0.
    /// The flag is written last, so it wins where `x` is the flag register.
    pub fn add_xy(&mut self, x: u8, y: u8)
        requires
            x < 16,
            y < 16,
        ensures
            final(self)@ == old(self)@.with_register(
                x as int,
                ((old(self)@.registers[x as int] + old(self)@.registers[y as int]) % 0x100) as u8,
            ).with_register(
                FLAG_REGISTER as int,
                if old(self)@.registers[x as int] + old(self)@.registers[y as int] >= 0x100 {
                    1u8
                } else {
                    0u8
                },
            ),
    {
        let arg1 = self.registers[x as usize];
        let arg2 = self.registers[y as usize];
        let val = arg1.wrapping_add(arg2);
        let carry: u8 = if arg1.checked_add(arg2).is_none() {
            1
        } else {
            0
        };
        self.registers[x as usize] = val;
        self.registers[FLAG_REGISTER] = carry;
    }

    /// Calls the subroutine at `mem_pos`: saves the program counter on the
    /// call stack and continues at `mem_pos`. With sixteen frames live already
    /// the call is a stack overflow and changes nothing.
    ///
    /// A frame holds sixteen bits. That is room for every program counter
    /// that a fetch can leave behind.
    pub fn call(&mut self, mem_pos: u16) -> (result: Result<(), Fault>)
        ensures
            old(self)@.execute(Instruction::Call { addr: mem_pos }) == (
                final(self)@,
                match result {
                    Ok(_) => Ok::<Status, Fault>(Status::Running),
                    Err(fault) => Err::<Status, Fault>(fault),
                },
            ),
    {
        let return_to = #[verifier::truncate]
        (self.memory_position as u16);
        match self.stack.push(return_to) {
            Ok(_) => {
                self.memory_position = mem_pos as usize;
                Ok(())
            },
            Err(fault) => Err(fault),
        }
    }

    /// Returns from a subroutine: removes the newest frame of the call stack
    /// and continues where it says. With no frame live the return is a stack
    /// underflow and changes nothing.
    pub fn ret(&mut self) -> (result: Result<(), Fault>)
        ensures
            old(self)@.execute(Instruction::Ret) == (
                final(self)@,
                match result {
                    Ok(_) => Ok::<Status, Fault>(Status::Running),
                    Err(fault) => Err::<Status, Fault>(fault),
                },
            ),
    {
        match self.stack.pop() {
            Ok(previous_mem_position) => {
                self.memory_position = previous_mem_position as usize;
                Ok(())
            },
            Err(fault) => Err(fault),
        }
    }

    /// Executes one instruction. The program counter is expected to point
    /// behind that instruction already.
    pub fn execute(&mut self, instruction: Instruction) -> (result: Result<Status, Fault>)
        requires
            instruction.well_formed(),
            old(self).memory_position <= usize::MAX - 2,
        ensures
            (final(self)@, result) == old(self)@.execute(instruction),
    {
        match instruction {
            Instruction::Halt => {
                return Ok(Status::Halted);
            },
            Instruction::Ret => {
                if let Err(fault) = self.ret() {
                    return Err(fault);
                }
            },
            Instruction::Jmp { addr } => self.jmp(addr),
            Instruction::Call { addr } => {
                if let Err(fault) = self.call(addr) {
                    return Err(fault);
                }
            },
            Instruction::SkipEqImm { x, kk } => self.se(x, kk),
            Instruction::SkipNeImm { x, kk } => self.sne(x, kk),
            Instruction::SkipEqReg { x, y } => self.ser(x, y),
            Instruction::LoadImm { x, kk } => self.ld(x, kk),
            Instruction::AddImm { x, kk } => self.add(x, kk),
            Instruction::LoadReg { x, y } => {
                let value = self.registers[y as usize];
                self.ld(x, value)
            },
            Instruction::Or { x, y } => self.or_xy(x, y),
            Instruction::And { x, y } => self.and_xy(x, y),
            Instruction::Xor { x, y } => self.xor_xy(x, y),
            Instruction::AddReg { x, y } => self.add_xy(x, y),
        }
        Ok(Status::Running)
    }

    /// Makes one fetch-decode-execute cycle.
    ///
    /// The program counter moves behind the fetched word before the word is
    /// decoded, so a jump, call, skip or return works on the advanced value.
    /// A word that is in no entry of the instruction table is reported with
    /// its raw value and never passed over.
    pub fn step(&mut self) -> (result: Result<Status, Fault>)
        ensures
            (final(self)@, result) == old(self)@.step(),
    {
        let opcode = match self.read_op_code() {
            Ok(word) => word,
            Err(fault) => {
                return Err(fault);
            },
        };
        self.memory_position += 2;
        match decode(opcode) {
            Some(instruction) => self.execute(instruction),
            None => Err(Fault::UnimplementedOpcode { word: opcode }),
        }
    }

    /// Makes at most `cycles` cycles, stopping at the first that halts or
    /// faults. `Ok(Status::Running)` says that the budget is used up and the
    /// processor would go on.
    pub fn run_cycles(&mut self, cycles: u64) -> (result: Result<Status, Fault>)
        ensures
            (final(self)@, result) == old(self)@.run(cycles as nat),
    {
        let ghost start = self@;
        let mut done: u64 = 0;
        while done < cycles
            invariant
                done <= cycles,
                start == old(self)@,
                start.run(done as nat) == (self@, Ok::<Status, Fault>(Status::Running)),
            decreases cycles - done,
        {
            let result = self.step();
            done += 1;
            assert(start.run(done as nat) == (self@, result));
            match result {
                Ok(Status::Running) => {},
                _ => {
                    proof {
                        start.lemma_run_is_final(done as nat, cycles as nat);
                    }
                    return result;
                },
            }
        }
        Ok(Status::Running)
    }

    /// Runs the processor until it halts or faults.
    ///
    /// The loop gives up after `u64::MAX` cycles, which no program reaches in
    /// practice; it then reports `Ok(Status::Running)`.
    pub fn run(&mut self) -> (result: Result<Status, Fault>)
        ensures
            (final(self)@, result) == old(self)@.run(u64::MAX as nat),
    {
        self.run_cycles(u64::MAX)
    }
}

} // verus!
