//! The general registers V0 to VF, the 12-bit index register I and the program
//! counter.
use vstd::prelude::*;

verus! {

/// Address at which execution starts.
pub const START_ADDRESS: u16 = 0x200;

/// The index register keeps this many low bits of what is written to it.
pub const INDEX_MASK: u16 = 0x0FFF;

/// What the register file holds.
pub struct RegisterState {
    /// V0 to VF, in order.
    pub v: Seq<u8>,
    /// The index register.
    pub i: u16,
    /// The program counter.
    pub pc: u16,
}

/// The register file.
pub struct RegisterFile {
    v: [u8; 16],
    i: u16,
    pc: u16,
}

impl View for RegisterFile {
    type V = RegisterState;

    closed spec fn view(&self) -> RegisterState {
        RegisterState { v: self.v@, i: self.i, pc: self.pc }
    }
}

impl RegisterFile {
    #[verifier::type_invariant]
    spec fn index_fits(&self) -> bool {
        self.i <= INDEX_MASK
    }

    /// There are always sixteen general registers.
    pub proof fn lemma_register_count(&self)
        ensures
            self@.v.len() == 16,
    {
    }

    /// All registers zero, the program counter at 0x200.
    pub fn new() -> (r: RegisterFile)
        ensures
            r@.v == Seq::new(16, |k: int| 0u8),
            r@.i == 0,
            r@.pc == START_ADDRESS,
    {
        let r = RegisterFile { v: [0u8; 16], i: 0, pc: START_ADDRESS };
        assert(r@.v =~= Seq::new(16, |k: int| 0u8));
        r
    }

    /// Register V(x mod 16).
    pub fn get(&self, x: u8) -> (r: u8)
        ensures
            self@.v.len() == 16,
            r == self@.v[(x % 16) as int],
    {
        self.v[(x % 16) as usize]
    }

    /// Sets register V(x mod 16) to `value`.
    pub fn set(&mut self, x: u8, value: u8)
        ensures
            old(self)@.v.len() == 16,
            final(self)@ == (RegisterState { v: old(self)@.v.update((x % 16) as int, value), ..old(self)@ }),
    {
        proof {
            use_type_invariant(&*self);
        }
        self.v[(x % 16) as usize] = value;
    }

    /// The index register.
    pub fn index(&self) -> (r: u16)
        ensures
            r == self@.i,
            r <= INDEX_MASK,
    {
        proof {
            use_type_invariant(self);
        }
        self.i
    }

    /// Sets the index register to the low twelve bits of `value`.
    pub fn set_index(&mut self, value: u16)
        ensures
            final(self)@ == (RegisterState { i: value % 4096, ..old(self)@ }),
    {
        assert(value & INDEX_MASK == value % 4096) by (bit_vector);
        self.i = value & INDEX_MASK;
    }

    /// The program counter.
    pub fn pc(&self) -> (r: u16)
        ensures
            r == self@.pc,
    {
        self.pc
    }

    /// Sets the program counter.
    pub fn set_pc(&mut self, value: u16)
        ensures
            final(self)@ == (RegisterState { pc: value, ..old(self)@ }),
    {
        proof {
            use_type_invariant(&*self);
        }
        self.pc = value;
    }
}

} // verus!
