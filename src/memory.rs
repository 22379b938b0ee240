//! The 4096-byte memory: the font table at address 0, programs from 0x200.
use crate::fault::Fault;
use vstd::prelude::*;

verus! {

/// Number of addressable bytes.
pub const MEMORY_SIZE: usize = 4096;

/// Address at which programs are loaded.
pub const PROGRAM_START: usize = 0x200;

/// Largest program that fits: memory size less the program start.
pub const MAX_PROGRAM_LEN: usize = 3584;

/// Bytes of one font glyph.
pub const GLYPH_LEN: usize = 5;

/// The sixteen hexadecimal digit glyphs, five rows of four pixels each, stored
/// from address 0.
pub open spec fn font_table() -> Seq<u8> {
    seq![
        0xF0u8, 0x90, 0x90, 0x90, 0xF0,  // 0
        0x20, 0x60, 0x20, 0x20, 0x70,  // 1
        0xF0, 0x10, 0xF0, 0x80, 0xF0,  // 2
        0xF0, 0x10, 0xF0, 0x10, 0xF0,  // 3
        0x90, 0x90, 0xF0, 0x10, 0x10,  // 4
        0xF0, 0x80, 0xF0, 0x10, 0xF0,  // 5
        0xF0, 0x80, 0xF0, 0x90, 0xF0,  // 6
        0xF0, 0x10, 0x20, 0x40, 0x40,  // 7
        0xF0, 0x90, 0xF0, 0x90, 0xF0,  // 8
        0xF0, 0x90, 0xF0, 0x10, 0xF0,  // 9
        0xF0, 0x90, 0xF0, 0x90, 0x90,  // A
        0xE0, 0x90, 0xE0, 0x90, 0xE0,  // B
        0xF0, 0x80, 0x80, 0x80, 0xF0,  // C
        0xE0, 0x90, 0x90, 0x90, 0xE0,  // D
        0xF0, 0x80, 0xF0, 0x80, 0xF0,  // E
        0xF0, 0x80, 0xF0, 0x80, 0x80,  // F
    ]
}

/// `mem` with the font table written over its first 80 bytes.
pub open spec fn with_font(mem: Seq<u8>) -> Seq<u8> {
    Seq::new(mem.len(), |a: int| if a < font_table().len() { font_table()[a] } else { mem[a] })
}

/// Memory as the machine starts: the font table, then zeros.
pub open spec fn initial_memory() -> Seq<u8> {
    with_font(Seq::new(MEMORY_SIZE as nat, |a: int| 0u8))
}

/// `mem` with `program` written from the program start on.
pub open spec fn with_program(mem: Seq<u8>, program: Seq<u8>) -> Seq<u8> {
    Seq::new(
        mem.len(),
        |a: int|
            if PROGRAM_START <= a < PROGRAM_START + program.len() {
                program[a - PROGRAM_START]
            } else {
                mem[a]
            },
    )
}

fn font_bytes() -> (f: [u8; 80])
    ensures
        f@ == font_table(),
{
    let f = [
        0xF0u8, 0x90, 0x90, 0x90, 0xF0, 0x20, 0x60, 0x20, 0x20, 0x70, 0xF0, 0x10, 0xF0, 0x80,
        0xF0, 0xF0, 0x10, 0xF0, 0x10, 0xF0, 0x90, 0x90, 0xF0, 0x10, 0x10, 0xF0, 0x80, 0xF0,
        0x10, 0xF0, 0xF0, 0x80, 0xF0, 0x90, 0xF0, 0xF0, 0x10, 0x20, 0x40, 0x40, 0xF0, 0x90,
        0xF0, 0x90, 0xF0, 0xF0, 0x90, 0xF0, 0x10, 0xF0, 0xF0, 0x90, 0xF0, 0x90, 0x90, 0xE0,
        0x90, 0xE0, 0x90, 0xE0, 0xF0, 0x80, 0x80, 0x80, 0xF0, 0xE0, 0x90, 0x90, 0x90, 0xE0,
        0xF0, 0x80, 0xF0, 0x80, 0xF0, 0xF0, 0x80, 0xF0, 0x80, 0x80,
    ];
    assert(f@ =~= font_table());
    f
}

/// The machine's byte store.
pub struct Memory {
    bytes: [u8; 4096],
}

impl View for Memory {
    type V = Seq<u8>;

    closed spec fn view(&self) -> Seq<u8> {
        self.bytes@
    }
}

impl Memory {
    /// Memory always holds 4096 bytes.
    pub proof fn lemma_size(&self)
        ensures
            self@.len() == MEMORY_SIZE,
    {
    }

    /// Zeroed memory with the font table loaded.
    pub fn new() -> (m: Memory)
        ensures
            m@ == initial_memory(),
    {
        let mut m = Memory { bytes: [0u8; 4096] };
        m.load_font();
        assert(m@ =~= initial_memory());
        m
    }

    /// Writes the 80-byte font table at address 0.
    pub fn load_font(&mut self)
        ensures
            final(self)@ == with_font(old(self)@),
    {
        let font = font_bytes();
        let mut a: usize = 0;
        while a < 80
            invariant
                a <= 80,
                font@ == font_table(),
                self@.len() == MEMORY_SIZE,
                forall|b: int| 0 <= b < a ==> self@[b] == font_table()[b],
                forall|b: int| a <= b < MEMORY_SIZE ==> self@[b] == old(self)@[b],
            decreases 80 - a,
        {
            self.bytes[a] = font[a];
            a += 1;
        }
        assert(self@ =~= with_font(old(self)@));
    }

    /// Copies `program` to memory from address 0x200 on; fails with
    /// `ProgramTooLarge`, leaving memory as it was, when it would pass the end.
    pub fn load_program(&mut self, program: &[u8]) -> (r: Result<(), Fault>)
        ensures
            program@.len() <= MAX_PROGRAM_LEN ==> r == Ok::<(), Fault>(()) && final(self)@
                == with_program(old(self)@, program@),
            program@.len() > MAX_PROGRAM_LEN ==> r == Err::<(), Fault>(Fault::ProgramTooLarge)
                && final(self)@ == old(self)@,
    {
        if program.len() > MAX_PROGRAM_LEN {
            return Err(Fault::ProgramTooLarge);
        }
        let mut k: usize = 0;
        while k < program.len()
            invariant
                k <= program@.len() <= MAX_PROGRAM_LEN,
                self@.len() == MEMORY_SIZE,
                forall|b: int|
                    0 <= b < MEMORY_SIZE ==> self@[b] == (if PROGRAM_START <= b < PROGRAM_START + k {
                        program@[b - PROGRAM_START]
                    } else {
                        old(self)@[b]
                    }),
            decreases program@.len() - k,
        {
            self.bytes[PROGRAM_START + k] = program[k];
            k += 1;
        }
        assert(self@ =~= with_program(old(self)@, program@));
        Ok(())
    }

    /// The byte at `addr`, or `AddressOutOfRange` past the end of memory.
    pub fn read(&self, addr: usize) -> (r: Result<u8, Fault>)
        ensures
            addr < MEMORY_SIZE ==> r == Ok::<u8, Fault>(self@[addr as int]),
            addr >= MEMORY_SIZE ==> r == Err::<u8, Fault>(Fault::AddressOutOfRange(addr)),
    {
        if addr < MEMORY_SIZE {
            Ok(self.bytes[addr])
        } else {
            Err(Fault::AddressOutOfRange(addr))
        }
    }

    /// The `len` bytes from `start` on, or `AddressOutOfRange` when they would
    /// pass the end of memory.
    pub fn read_range(&self, start: usize, len: usize) -> (r: Result<Vec<u8>, Fault>)
        ensures
            start + len <= MEMORY_SIZE ==> r is Ok && r->Ok_0@ == self@.subrange(
                start as int,
                start + len,
            ),
            start + len > MEMORY_SIZE ==> r == Err::<Vec<u8>, Fault>(Fault::AddressOutOfRange(start)),
    {
        if len > MEMORY_SIZE || start > MEMORY_SIZE - len {
            return Err(Fault::AddressOutOfRange(start));
        }
        let mut out: Vec<u8> = Vec::new();
        let mut k: usize = 0;
        while k < len
            invariant
                k <= len,
                start + len <= MEMORY_SIZE,
                self@.len() == MEMORY_SIZE,
                out@ == self@.subrange(start as int, start + k),
            decreases len - k,
        {
            out.push(self.bytes[start + k]);
            k += 1;
            assert(out@ =~= self@.subrange(start as int, start + k));
        }
        Ok(out)
    }

    /// Stores `value` at `addr`.
    pub fn store(&mut self, addr: usize, value: u8)
        requires
            addr < MEMORY_SIZE,
        ensures
            final(self)@ == old(self)@.update(addr as int, value),
    {
        self.bytes[addr] = value;
    }
}

} // verus!
