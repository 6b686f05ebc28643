//! The call stack: a bounded pile of return addresses.

use vstd::prelude::*;

verus! {

/// The largest number of return addresses the stack holds.
pub const STACK_SIZE: usize = 16;

/// A last-in first-out store of at most sixteen return addresses.
pub struct Stack {
    stack: [u16; 16],
    sp: usize,
}

impl View for Stack {
    type V = Seq<u16>;

    /// The addresses on the stack, the oldest first.
    closed spec fn view(&self) -> Seq<u16> {
        self.stack@.subrange(0, self.sp as int)
    }
}

impl Stack {
    /// The stack pointer does not run past the last slot.
    pub closed spec fn wf(&self) -> bool {
        self.sp <= 16
    }

    /// A well-formed stack holds at most sixteen addresses.
    pub proof fn lemma_depth_bounded(&self)
        requires
            self.wf(),
        ensures
            self@.len() <= STACK_SIZE,
    {
    }

    /// An empty stack.
    pub fn new() -> (r: Stack)
        ensures
            r.wf(),
            r@ == Seq::<u16>::empty(),
    {
        Stack { stack: [0u16; 16], sp: 0 }
    }

    /// The number of addresses on the stack.
    pub fn depth(&self) -> (r: usize)
        requires
            self.wf(),
        ensures
            r == self@.len(),
            r <= STACK_SIZE,
    {
        self.sp
    }

    /// The address that `pop` would take, if there is one.
    pub fn peek(&self) -> (r: Option<u16>)
        requires
            self.wf(),
        ensures
            self@.len() == 0 ==> r is None,
            self@.len() > 0 ==> r == Some(self@.last()),
    {
        if self.sp == 0 {
            None
        } else {
            Some(self.stack[self.sp - 1])
        }
    }

    /// Takes the newest address off the stack. An empty stack gives `None` and
    /// stays empty.
    pub fn pop(&mut self) -> (r: Option<u16>)
        requires
            old(self).wf(),
        ensures
            final(self).wf(),
            old(self)@.len() == 0 ==> r is None && final(self)@ == old(self)@,
            old(self)@.len() > 0 ==> r == Some(old(self)@.last()) && final(self)@ == old(
                self,
            )@.drop_last(),
    {
        if self.sp == 0 {
            None
        } else {
            self.sp -= 1;
            assert(self@ =~= old(self)@.drop_last());
            Some(self.stack[self.sp])
        }
    }

    /// Puts an address on the stack. A full stack gives `None` and is left as
    /// it was.
    pub fn push(&mut self, value: u16) -> (r: Option<()>)
        requires
            old(self).wf(),
        ensures
            final(self).wf(),
            old(self)@.len() == STACK_SIZE ==> r is None && final(self)@ == old(self)@,
            old(self)@.len() < STACK_SIZE ==> r is Some && final(self)@ == old(self)@.push(value),
    {
        if self.sp == STACK_SIZE {
            return None;
        }
        self.stack[self.sp] = value;
        self.sp += 1;
        assert(self@ =~= old(self)@.push(value));
        Some(())
    }

    /// Empties the stack.
    pub fn clear(&mut self)
        ensures
            final(self).wf(),
            final(self)@ == Seq::<u16>::empty(),
    {
        self.sp = 0;
    }
}

} // verus!
