//! The bounded stack of subroutine return addresses.
use crate::fault::Fault;
use vstd::prelude::*;

verus! {

/// Number of return addresses the stack holds.
pub const STACK_DEPTH: usize = 16;

/// Up to sixteen return addresses; its view lists them bottom first.
pub struct CallStack {
    slots: [u16; 16],
    depth: usize,
}

impl View for CallStack {
    type V = Seq<u16>;

    closed spec fn view(&self) -> Seq<u16> {
        self.slots@.subrange(0, self.depth as int)
    }
}

impl CallStack {
    #[verifier::type_invariant]
    spec fn depth_fits(&self) -> bool {
        self.depth <= STACK_DEPTH
    }

    /// An empty stack.
    pub fn new() -> (s: CallStack)
        ensures
            s@ == Seq::<u16>::empty(),
    {
        let s = CallStack { slots: [0u16; 16], depth: 0 };
        assert(s@ =~= Seq::<u16>::empty());
        s
    }

    /// Number of entries in use.
    pub fn depth(&self) -> (n: usize)
        ensures
            n == self@.len(),
            n <= STACK_DEPTH,
    {
        proof {
            use_type_invariant(self);
        }
        self.depth
    }

    /// Pushes `addr`; fails with `StackOverflow`, changing nothing, when all
    /// sixteen entries are in use.
    pub fn push(&mut self, addr: u16) -> (r: Result<(), Fault>)
        ensures
            old(self)@.len() < STACK_DEPTH ==> r == Ok::<(), Fault>(()) && final(self)@ == old(
                self,
            )@.push(addr),
            old(self)@.len() >= STACK_DEPTH ==> r == Err::<(), Fault>(Fault::StackOverflow)
                && final(self)@ == old(self)@,
    {
        proof {
            use_type_invariant(&*self);
        }
        if self.depth >= STACK_DEPTH {
            return Err(Fault::StackOverflow);
        }
        let ghost before = self@;
        self.slots[self.depth] = addr;
        self.depth = self.depth + 1;
        assert(self@ =~= before.push(addr));
        Ok(())
    }

    /// Pops the most recently pushed address; fails with `StackUnderflow` when
    /// the stack is empty.
    pub fn pop(&mut self) -> (r: Result<u16, Fault>)
        ensures
            old(self)@.len() > 0 ==> r == Ok::<u16, Fault>(old(self)@.last()) && final(self)@ == old(
                self,
            )@.drop_last(),
            old(self)@.len() == 0 ==> r == Err::<u16, Fault>(Fault::StackUnderflow) && final(self)@
                == old(self)@,
    {
        proof {
            use_type_invariant(&*self);
        }
        if self.depth == 0 {
            return Err(Fault::StackUnderflow);
        }
        let ghost before = self@;
        self.depth = self.depth - 1;
        let addr = self.slots[self.depth];
        assert(self@ =~= before.drop_last());
        Ok(addr)
    }
}

} // verus!
