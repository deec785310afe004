//! The processor as a mathematical object: its state, and the transition that
//! one fetch-decode-execute cycle makes.

use vstd::prelude::*;
use crate::instruction::{spec_decode, Instruction};

verus! {

/// Number of general-purpose registers.
pub const REGISTER_COUNT: usize = 16;

/// Size of the memory image in bytes.
pub const MEMORY_SIZE: usize = 0x1000;

/// Number of frames that the call stack can hold.
pub const STACK_CAPACITY: usize = 16;

/// Index of the register that register-register addition overwrites with its
/// carry.
pub const FLAG_REGISTER: usize = 0xF;

/// A fatal condition. Each one ends the run loop.
#[derive(Clone, Copy, Debug, PartialEq, Eq, Structural)]
pub enum Fault {
    /// A call was issued while the call stack already held sixteen frames.
    StackOverflow,
    /// A return was issued while the call stack was empty.
    StackUnderflow,
    /// The fetched instruction word matches no entry of the instruction table.
    UnimplementedOpcode { word: u16 },
    /// The program counter does not leave room for a two-byte instruction.
    OutOfBoundsFetch { address: usize },
}

/// What a cycle that did not fault leaves the run loop in.
#[derive(Clone, Copy, Debug, PartialEq, Eq, Structural)]
pub enum Status {
    /// The processor goes on fetching.
    Running,
    /// The halt instruction was executed.
    Halted,
}

/// The call stack as a value: all of its slots, lowest first, and the number
/// of them that hold a live frame. The live frames are the slots below
/// `depth`; the slots from `depth` up are free and keep what was last written
/// there.
pub struct Frames {
    pub slots: Seq<u16>,
    pub depth: int,
}

impl Frames {
    /// Sixteen slots, of which none up to all are live.
    pub open spec fn well_formed(self) -> bool {
        &&& self.slots.len() == STACK_CAPACITY
        &&& 0 <= self.depth <= STACK_CAPACITY
    }

    /// The stack of a freshly constructed processor: every slot zero, no
    /// frame live.
    pub open spec fn empty() -> Frames {
        Frames { slots: Seq::new(STACK_CAPACITY as nat, |i: int| 0u16), depth: 0 }
    }

    /// The live frames, oldest first.
    pub open spec fn live(self) -> Seq<u16> {
        self.slots.take(self.depth)
    }

    /// The newest live frame.
    pub open spec fn top(self) -> u16
        recommends
            0 < self.depth <= self.slots.len(),
    {
        self.slots[self.depth - 1]
    }

    /// This stack with `value` written into the lowest free slot and that
    /// slot made live.
    pub open spec fn push(self, value: u16) -> Frames
        recommends
            0 <= self.depth < self.slots.len(),
    {
        Frames { slots: self.slots.update(self.depth, value), depth: self.depth + 1 }
    }

    /// This stack with the newest frame set free. The slot keeps its value.
    pub open spec fn pop(self) -> Frames
        recommends
            0 < self.depth,
    {
        Frames { depth: self.depth - 1, ..self }
    }
}

/// The state of the processor: registers, memory image, program counter and
/// call stack.
pub struct Machine {
    pub registers: Seq<u8>,
    pub memory: Seq<u8>,
    pub pc: int,
    pub stack: Frames,
}

impl Machine {
    /// Sixteen registers, 4096 bytes of memory, at most sixteen frames, and a
    /// program counter that a machine word can hold.
    pub open spec fn well_formed(self) -> bool {
        &&& self.registers.len() == REGISTER_COUNT
        &&& self.memory.len() == MEMORY_SIZE
        &&& self.stack.well_formed()
        &&& 0 <= self.pc <= usize::MAX
    }

    /// The state of a freshly constructed processor: everything zero, no
    /// frame live.
    pub open spec fn initial() -> Machine {
        Machine {
            registers: Seq::new(REGISTER_COUNT as nat, |i: int| 0u8),
            memory: Seq::new(MEMORY_SIZE as nat, |i: int| 0u8),
            pc: 0,
            stack: Frames::empty(),
        }
    }

    /// Whether both bytes of the instruction at the program counter lie in
    /// memory.
    pub open spec fn can_fetch(self) -> bool {
        0 <= self.pc && self.pc + 1 < self.memory.len()
    }

    /// The instruction word at the program counter, high byte first.
    pub open spec fn fetch(self) -> u16
        recommends
            self.can_fetch(),
    {
        (self.memory[self.pc] as int * 0x100 + self.memory[self.pc + 1] as int) as u16
    }

    /// This state with the program counter moved forward by `by`.
    pub open spec fn advance(self, by: int) -> Machine {
        Machine { pc: self.pc + by, ..self }
    }

    /// This state with the program counter set to `target`.
    pub open spec fn jump(self, target: int) -> Machine {
        Machine { pc: target, ..self }
    }

    /// This state with register `x` holding `value`.
    pub open spec fn with_register(self, x: int, value: u8) -> Machine
        recommends
            0 <= x < self.registers.len(),
    {
        Machine { registers: self.registers.update(x, value), ..self }
    }

    /// This state after a conditional skip: two bytes further if `taken`.
    pub open spec fn skip_if(self, taken: bool) -> Machine {
        if taken {
            self.advance(2)
        } else {
            self
        }
    }

    /// The effect of one instruction on a state whose program counter already
    /// points behind that instruction.
    ///
    /// A fault leaves the state as it was handed in.
    pub open spec fn execute(self, instruction: Instruction) -> (Machine, Result<Status, Fault>)
    {
        let r = self.registers;
        match instruction {
            Instruction::Halt => (self, Ok(Status::Halted)),
            Instruction::Ret => if self.stack.depth <= 0 {
                (self, Err(Fault::StackUnderflow))
            } else {
                (
                    Machine { pc: self.stack.top() as int, stack: self.stack.pop(), ..self },
                    Ok(Status::Running),
                )
            },
            Instruction::Jmp { addr } => (self.jump(addr as int), Ok(Status::Running)),
            Instruction::Call { addr } => if self.stack.depth >= STACK_CAPACITY {
                (self, Err(Fault::StackOverflow))
            } else {
                (
                    Machine { pc: addr as int, stack: self.stack.push(self.pc as u16), ..self },
                    Ok(Status::Running),
                )
            },
            Instruction::SkipEqImm { x, kk } => (
                self.skip_if(r[x as int] == kk),
                Ok(Status::Running),
            ),
            Instruction::SkipNeImm { x, kk } => (
                self.skip_if(r[x as int] != kk),
                Ok(Status::Running),
            ),
            Instruction::SkipEqReg { x, y } => (
                self.skip_if(r[x as int] == r[y as int]),
                Ok(Status::Running),
            ),
            Instruction::LoadImm { x, kk } => (
                self.with_register(x as int, kk),
                Ok(Status::Running),
            ),
            Instruction::AddImm { x, kk } => (
                self.with_register(x as int, ((r[x as int] + kk) % 0x100) as u8),
                Ok(Status::Running),
            ),
            Instruction::LoadReg { x, y } => (
                self.with_register(x as int, r[y as int]),
                Ok(Status::Running),
            ),
            Instruction::Or { x, y } => (
                self.with_register(x as int, r[x as int] | r[y as int]),
                Ok(Status::Running),
            ),
            Instruction::And { x, y } => (
                self.with_register(x as int, r[x as int] & r[y as int]),
                Ok(Status::Running),
            ),
            Instruction::Xor { x, y } => (
                self.with_register(x as int, r[x as int] ^ r[y as int]),
                Ok(Status::Running),
            ),
            Instruction::AddReg { x, y } => {
                let sum = r[x as int] + r[y as int];
                let carry = if sum >= 0x100 {
                    1u8
                } else {
                    0u8
                };
                (
                    self.with_register(x as int, (sum % 0x100) as u8).with_register(
                        FLAG_REGISTER as int,
                        carry,
                    ),
                    Ok(Status::Running),
                )
            },
        }
    }

    /// One fetch-decode-execute cycle.
    ///
    /// Where the fetch is out of bounds nothing changes. Otherwise the program
    /// counter moves behind the fetched word before anything else happens, so
    /// that a fault of the instruction itself leaves it there.
    pub open spec fn step(self) -> (Machine, Result<Status, Fault>)
    {
        if !self.can_fetch() {
            (self, Err(Fault::OutOfBoundsFetch { address: self.pc as usize }))
        } else {
            let word = self.fetch();
            let fetched = self.advance(2);
            match spec_decode(word) {
                None => (fetched, Err(Fault::UnimplementedOpcode { word })),
                Some(instruction) => fetched.execute(instruction),
            }
        }
    }

    /// At most `cycles` cycles in a row, stopping at the first one that halts
    /// or faults. `Ok(Status::Running)` means that all `cycles` were made and
    /// the processor would go on.
    pub open spec fn run(self, cycles: nat) -> (Machine, Result<Status, Fault>)
        decreases cycles,
    {
        if cycles == 0 {
            (self, Ok(Status::Running))
        } else {
            let before = self.run((cycles - 1) as nat);
            if before.1 == Ok::<Status, Fault>(Status::Running) {
                before.0.step()
            } else {
                before
            }
        }
    }

    /// Once a run has halted or faulted, a larger budget changes nothing:
    /// neither of the two terminal states is ever left.
    pub proof fn lemma_run_is_final(self, cycles: nat, more: nat)
        requires
            self.run(cycles).1 != Ok::<Status, Fault>(Status::Running),
            cycles <= more,
        ensures
            self.run(more) == self.run(cycles),
        decreases more,
    {
        if cycles < more {
            self.lemma_run_is_final(cycles, (more - 1) as nat);
        }
    }
}

} // verus!
