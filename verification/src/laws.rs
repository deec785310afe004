//! What holds of every state and every program: the laws of the instruction
//! set, stated over the transition relation and proved.

use vstd::prelude::*;
use crate::instruction::{spec_decode, Instruction};
use crate::machine::{Fault, Frames, Machine, Status, FLAG_REGISTER, STACK_CAPACITY};

verus! {

/// Register-register addition of `a` and `b` leaves `(a + b) mod 256` in the
/// destination and sets the flag register to 1 if `a + b` is 256 or more, to
/// 0 otherwise. The flag is written whichever registers take part; where the
/// destination is the flag register itself, the flag is what stays there.
/// Nothing else changes.
pub proof fn lemma_add_reg_sum_and_carry(s: Machine, x: u8, y: u8)
    requires
        s.well_formed(),
        x < 16,
        y < 16,
    ensures
        ({
            let a = s.registers[x as int] as int;
            let b = s.registers[y as int] as int;
            let (t, outcome) = s.execute(Instruction::AddReg { x, y });
            &&& outcome == Ok::<Status, Fault>(Status::Running)
            &&& t.registers[FLAG_REGISTER as int] as int == if a + b >= 256 {
                1int
            } else {
                0int
            }
            &&& x != FLAG_REGISTER ==> t.registers[x as int] as int == (a + b) % 256
            &&& forall|j: int|
                0 <= j < 16 && j != x && j != FLAG_REGISTER ==> t.registers[j] == s.registers[j]
            &&& t.registers.len() == 16
            &&& t.memory == s.memory
            &&& t.pc == s.pc
            &&& t.stack == s.stack
        }),
{
}

/// Immediate addition leaves `(a + kk) mod 256` in the destination and every
/// other register as it was. In particular the flag register keeps its value
/// even where the sum does not fit in eight bits, unless it is the
/// destination.
pub proof fn lemma_add_imm_keeps_flag(s: Machine, x: u8, kk: u8)
    requires
        s.well_formed(),
        x < 16,
    ensures
        ({
            let a = s.registers[x as int] as int;
            let (t, outcome) = s.execute(Instruction::AddImm { x, kk });
            &&& outcome == Ok::<Status, Fault>(Status::Running)
            &&& t.registers[x as int] as int == (a + kk) % 256
            &&& x != FLAG_REGISTER ==> t.registers[FLAG_REGISTER as int]
                == s.registers[FLAG_REGISTER as int]
            &&& forall|j: int| 0 <= j < 16 && j != x ==> t.registers[j] == s.registers[j]
            &&& t.registers.len() == 16
            &&& t.memory == s.memory
            &&& t.pc == s.pc
            &&& t.stack == s.stack
        }),
{
}

/// A call whose target holds a return: after the two cycles the program
/// counter points at the instruction after the call, and registers, memory
/// and the live frames are as before the call. The slot that the call made
/// live, and the return set free again, holds the return address.
pub proof fn lemma_call_then_ret(s: Machine, addr: u16)
    requires
        s.well_formed(),
        s.can_fetch(),
        spec_decode(s.fetch()) == Some(Instruction::Call { addr }),
        s.stack.depth < STACK_CAPACITY,
        s.step().0.can_fetch(),
        spec_decode(s.step().0.fetch()) == Some(Instruction::Ret),
    ensures
        s.step().1 == Ok::<Status, Fault>(Status::Running),
        s.step().0.pc == addr,
        s.run(2) == s.step().0.step(),
        s.run(2) == (
            Machine {
                pc: s.pc + 2,
                stack: Frames {
                    slots: s.stack.slots.update(s.stack.depth, (s.pc + 2) as u16),
                    depth: s.stack.depth,
                },
                ..s
            },
            Ok::<Status, Fault>(Status::Running),
        ),
        s.run(2).0.stack.live() == s.stack.live(),
        s.stack.slots.update(s.stack.depth, (s.pc + 2) as u16)[s.stack.depth] == s.pc + 2,
{
    assert(s.run(1) == s.step()) by {
        assert(s.run(0) == (s, Ok::<Status, Fault>(Status::Running)));
    }
    assert(s.run(2).0.stack.live() =~= s.stack.live());
}

/// A call faults with a stack overflow exactly when sixteen frames are live,
/// and a return with a stack underflow exactly when none is. A call that
/// does not fault makes the stack one frame deeper, a return that does not
/// fault one frame shallower.
pub proof fn lemma_stack_faults(s: Machine, addr: u16)
    requires
        s.well_formed(),
    ensures
        s.execute(Instruction::Call { addr }).1 == if s.stack.depth == STACK_CAPACITY {
            Err::<Status, Fault>(Fault::StackOverflow)
        } else {
            Ok::<Status, Fault>(Status::Running)
        },
        s.execute(Instruction::Ret).1 == if s.stack.depth == 0 {
            Err::<Status, Fault>(Fault::StackUnderflow)
        } else {
            Ok::<Status, Fault>(Status::Running)
        },
        s.stack.depth < STACK_CAPACITY ==> s.execute(Instruction::Call { addr }).0.stack.depth
            == s.stack.depth + 1,
        s.stack.depth > 0 ==> s.execute(Instruction::Ret).0.stack.depth == s.stack.depth - 1,
{
}

/// Whether each of the first `cycles` cycles from this state, as far as the
/// run gets, fetches a call instruction.
pub open spec fn only_calls(s: Machine, cycles: nat) -> bool {
    forall|k: nat|
        k < cycles && (#[trigger] s.run(k)).1 == Ok::<Status, Fault>(Status::Running) ==> {
            &&& s.run(k).0.can_fetch()
            &&& spec_decode(s.run(k).0.fetch()) matches Some(Instruction::Call { .. })
        }
}

/// Nested calls with no return between them: while the stack has room each
/// call adds one frame, and the first call that finds sixteen frames live
/// faults with a stack overflow. From an empty stack that is the seventeenth.
pub proof fn lemma_nested_calls(s: Machine, cycles: nat)
    requires
        s.well_formed(),
        only_calls(s, cycles),
    ensures
        s.stack.depth + cycles <= STACK_CAPACITY ==> {
            &&& s.run(cycles).1 == Ok::<Status, Fault>(Status::Running)
            &&& s.run(cycles).0.stack.depth == s.stack.depth + cycles
        },
        s.stack.depth + cycles > STACK_CAPACITY ==> s.run(cycles).1 == Err::<Status, Fault>(
            Fault::StackOverflow,
        ),
    decreases cycles,
{
    if cycles > 0 {
        let fewer = (cycles - 1) as nat;
        assert(only_calls(s, fewer));
        lemma_nested_calls(s, fewer);
        if s.stack.depth + fewer <= STACK_CAPACITY {
            let before = s.run(fewer).0;
            assert(s.run(fewer).1 == Ok::<Status, Fault>(Status::Running));
            assert(before.can_fetch());
            assert(s.run(cycles) == before.step());
        }
    }
}

/// A return as the first instruction, with no call before it, faults with a
/// stack underflow.
pub proof fn lemma_ret_without_call(s: Machine)
    requires
        s.well_formed(),
        s.stack.depth == 0,
        s.can_fetch(),
        spec_decode(s.fetch()) == Some(Instruction::Ret),
    ensures
        s.step() == (s.advance(2), Err::<Status, Fault>(Fault::StackUnderflow)),
{
}

/// The three conditional skips leave the program counter four bytes behind
/// the skip instruction's own address exactly when their condition holds,
/// and two bytes behind it otherwise. Nothing else changes.
pub proof fn lemma_skip_distance(s: Machine)
    requires
        s.well_formed(),
        s.can_fetch(),
    ensures
        spec_decode(s.fetch()) matches Some(Instruction::SkipEqImm { x, kk }) ==> s.step() == (
            s.advance(
                if s.registers[x as int] == kk {
                    4
                } else {
                    2
                },
            ),
            Ok::<Status, Fault>(Status::Running),
        ),
        spec_decode(s.fetch()) matches Some(Instruction::SkipNeImm { x, kk }) ==> s.step() == (
            s.advance(
                if s.registers[x as int] != kk {
                    4
                } else {
                    2
                },
            ),
            Ok::<Status, Fault>(Status::Running),
        ),
        spec_decode(s.fetch()) matches Some(Instruction::SkipEqReg { x, y }) ==> s.step() == (
            s.advance(
                if s.registers[x as int] == s.registers[y as int] {
                    4
                } else {
                    2
                },
            ),
            Ok::<Status, Fault>(Status::Running),
        ),
{
}

/// Which outcome a cycle has is decided by the fetch, the fetched word and
/// the depth of the call stack: each outcome is given with the states on
/// which it comes.
pub proof fn lemma_step_outcome(s: Machine)
    requires
        s.well_formed(),
    ensures
        s.step().1 == Err::<Status, Fault>(Fault::OutOfBoundsFetch { address: s.pc as usize })
            <==> !s.can_fetch(),
        forall|word: u16|
            s.step().1 == Err::<Status, Fault>(Fault::UnimplementedOpcode { word }) <==> {
                &&& s.can_fetch()
                &&& s.fetch() == word
                &&& spec_decode(word) is None
            },
        s.step().1 == Err::<Status, Fault>(Fault::StackOverflow) <==> {
            &&& s.can_fetch()
            &&& spec_decode(s.fetch()) matches Some(Instruction::Call { .. })
            &&& s.stack.depth == STACK_CAPACITY
        },
        s.step().1 == Err::<Status, Fault>(Fault::StackUnderflow) <==> {
            &&& s.can_fetch()
            &&& s.fetch() == 0x00EE
            &&& s.stack.depth == 0
        },
        s.step().1 == Ok::<Status, Fault>(Status::Halted) <==> {
            &&& s.can_fetch()
            &&& s.fetch() == 0x0000
        },
        s.step().1 == Ok::<Status, Fault>(Status::Halted) ==> s.step().0 == s.advance(2),
        s.step().1 is Err ==> s.step().0 == if s.can_fetch() {
            s.advance(2)
        } else {
            s
        },
{
}

/// A cycle keeps a state well formed: sixteen registers, 4096 bytes of
/// memory that the cycle does not change, and never more than sixteen
/// frames.
pub proof fn lemma_step_keeps_well_formed(s: Machine)
    requires
        s.well_formed(),
    ensures
        s.step().0.well_formed(),
        s.step().0.memory == s.memory,
{
}

/// A run of any length keeps a state well formed and its memory unchanged.
pub proof fn lemma_run_keeps_well_formed(s: Machine, cycles: nat)
    requires
        s.well_formed(),
    ensures
        s.run(cycles).0.well_formed(),
        s.run(cycles).0.memory == s.memory,
    decreases cycles,
{
    if cycles > 0 {
        lemma_run_keeps_well_formed(s, (cycles - 1) as nat);
        lemma_step_keeps_well_formed(s.run((cycles - 1) as nat).0);
    }
}

} // verus!
