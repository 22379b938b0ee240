//! The faults that loading a program or running the machine can report.
use vstd::prelude::*;

verus! {

/// What went wrong. All but `InvalidInstruction` stop the machine.
#[derive(Clone, Copy, Debug, PartialEq, Eq, Structural)]
pub enum Fault {
    /// The program does not fit between address 0x200 and the end of memory.
    ProgramTooLarge,
    /// A call was made with all 16 stack entries in use.
    StackOverflow,
    /// A return was made with no stack entry in use.
    StackUnderflow,
    /// The opcode matches no instruction; execution goes on after it.
    InvalidInstruction(u16),
    /// An access started at this address and would leave the 4096-byte memory.
    AddressOutOfRange(usize),
}

impl Fault {
    /// Whether the fault halts the machine.
    pub open spec fn spec_is_fatal(self) -> bool {
        !(self is InvalidInstruction)
    }

    /// Whether the fault halts the machine.
    #[verifier::when_used_as_spec(spec_is_fatal)]
    pub fn is_fatal(self) -> (r: bool)
        ensures
            r == self.spec_is_fatal(),
    {
        match self {
            Fault::InvalidInstruction(_) => false,
            _ => true,
        }
    }
}

} // verus!
