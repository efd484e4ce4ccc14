//! The call stack: up to sixteen return addresses.

use vstd::prelude::*;
use crate::error::Chip8Error;
use crate::machine::STACK_SIZE;

verus! {

/// A stack of return addresses with room for sixteen entries.
///
/// Its view is the sequence of the addresses in use, the oldest first.
pub struct CallStack {
    entries: [u16; 16],
    depth: u16,
}

impl View for CallStack {
    type V = Seq<u16>;

    /// The entries below `depth`. The clip at the capacity changes nothing
    /// for a stack that meets its invariant; it makes every view bounded.
    closed spec fn view(&self) -> Seq<u16> {
        self.entries@.subrange(0, if self.depth <= 16 { self.depth as int } else { 16 })
    }
}

impl CallStack {
    #[verifier::type_invariant]
    spec fn inv(&self) -> bool {
        self.depth <= 16
    }

    /// No stack ever holds more than sixteen addresses.
    pub proof fn lemma_view_bounded(&self)
        ensures
            self@.len() <= STACK_SIZE,
    {
    }

    /// An empty stack.
    pub fn new() -> (stack: Self)
        ensures
            stack@ == Seq::<u16>::empty(),
    {
        CallStack { entries: [0; 16], depth: 0 }
    }

    /// Removes every entry.
    pub fn clear(&mut self)
        ensures
            final(self)@ == Seq::<u16>::empty(),
    {
        self.depth = 0;
    }

    /// The number of addresses on the stack.
    pub fn len(&self) -> (n: usize)
        ensures
            n == self@.len(),
    {
        proof {
            use_type_invariant(self);
        }
        self.depth as usize
    }

    /// Puts `val` on top of the stack. A full stack is left as it is and
    /// reported as an overflow.
    pub fn push(&mut self, val: u16) -> (r: Result<(), Chip8Error>)
        ensures
            match r {
                Ok(()) => old(self)@.len() < STACK_SIZE && final(self)@ == old(self)@.push(val),
                Err(e) => old(self)@.len() >= STACK_SIZE && e == Chip8Error::StackOverflow
                    && final(self)@ == old(self)@,
            },
    {
        proof {
            use_type_invariant(&*self);
        }
        if self.depth >= 16 {
            return Err(Chip8Error::StackOverflow);
        }
        self.entries[self.depth as usize] = val;
        self.depth += 1;
        assert(self@ =~= old(self)@.push(val));
        Ok(())
    }

    /// Takes the top address off the stack and returns it. An empty stack
    /// is left as it is and reported as an underflow.
    pub fn pop(&mut self) -> (r: Result<u16, Chip8Error>)
        ensures
            match r {
                Ok(val) => old(self)@.len() > 0 && val == old(self)@.last() && final(self)@
                    == old(self)@.drop_last(),
                Err(e) => old(self)@.len() == 0 && e == Chip8Error::StackUnderflow && final(self)@
                    == old(self)@,
            },
    {
        proof {
            use_type_invariant(&*self);
        }
        if self.depth == 0 {
            return Err(Chip8Error::StackUnderflow);
        }
        self.depth -= 1;
        assert(self@ =~= old(self)@.drop_last());
        Ok(self.entries[self.depth as usize])
    }
}

} // verus!
