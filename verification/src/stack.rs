//! The call stack: a fixed array of sixteen slots and a pointer to the next
//! free one.

use vstd::prelude::*;
use crate::machine::{Fault, Frames, STACK_CAPACITY};

verus! {

/// Saved program counters of the subroutine calls that have not returned yet.
///
/// Seen from outside, a call stack is its sixteen slots together with the
/// number of live frames: see [`Frames`].
pub struct CallStack {
    frames: [u16; 16],
    pointer: usize,
}

impl View for CallStack {
    type V = Frames;

    closed spec fn view(&self) -> Frames {
        Frames { slots: self.frames@, depth: self.pointer as int }
    }
}

impl CallStack {
    #[verifier::type_invariant]
    spec fn pointer_in_bounds(self) -> bool {
        self.pointer <= STACK_CAPACITY
    }

    /// An empty call stack, with every slot zero.
    pub fn new() -> (stack: CallStack)
        ensures
            stack@ == Frames::empty(),
    {
        let stack = CallStack { frames: [0; 16], pointer: 0 };
        assert(stack@.slots =~= Frames::empty().slots);
        stack
    }

    /// The number of live frames, which never exceeds the capacity.
    pub fn len(&self) -> (depth: usize)
        ensures
            depth == self@.depth,
            self@.well_formed(),
    {
        proof {
            use_type_invariant(self);
        }
        self.pointer
    }

    /// What slot `index` holds, live or free.
    pub fn slot(&self, index: usize) -> (value: u16)
        requires
            index < STACK_CAPACITY,
        ensures
            value == self@.slots[index as int],
    {
        self.frames[index]
    }

    /// Saves `value` in the lowest free slot as the newest frame, or reports a
    /// stack overflow and changes nothing where sixteen frames are live
    /// already.
    pub fn push(&mut self, value: u16) -> (result: Result<(), Fault>)
        ensures
            old(self)@.well_formed(),
            final(self)@.well_formed(),
            old(self)@.depth < STACK_CAPACITY ==> result == Ok::<(), Fault>(()) && final(self)@
                == old(self)@.push(value),
            old(self)@.depth >= STACK_CAPACITY ==> result == Err::<(), Fault>(
                Fault::StackOverflow,
            ) && final(self)@ == old(self)@,
    {
        proof {
            use_type_invariant(&*self);
        }
        if self.pointer == STACK_CAPACITY {
            return Err(Fault::StackOverflow);
        }
        self.frames[self.pointer] = value;
        self.pointer += 1;
        Ok(())
    }

    /// Removes the newest frame and hands it out, or reports a stack
    /// underflow and changes nothing where no frame is live. The slot that is
    /// set free keeps its value.
    pub fn pop(&mut self) -> (result: Result<u16, Fault>)
        ensures
            old(self)@.well_formed(),
            final(self)@.well_formed(),
            old(self)@.depth > 0 ==> result == Ok::<u16, Fault>(old(self)@.top()) && final(self)@
                == old(self)@.pop(),
            old(self)@.depth <= 0 ==> result == Err::<u16, Fault>(Fault::StackUnderflow)
                && final(self)@ == old(self)@,
    {
        proof {
            use_type_invariant(&*self);
        }
        if self.pointer == 0 {
            return Err(Fault::StackUnderflow);
        }
        self.pointer -= 1;
        let value = self.frames[self.pointer];
        Ok(value)
    }
}

} // verus!
