//! Decoding a two-byte opcode into an instruction.
use vstd::prelude::*;

verus! {

/// One decoded instruction. `x` and `y` name registers V0 to VF, `kk` is a byte
/// operand, `addr` a 12-bit address and `n` the height of a sprite.
#[derive(Clone, Copy, Debug, PartialEq, Eq, Structural)]
pub enum Instruction {
    /// 00E0: turn every pixel off.
    ClearScreen,
    /// 00EE: pop the return address into the program counter.
    Return,
    /// 1NNN: continue at `addr`.
    Jump { addr: u16 },
    /// 2NNN: push the program counter, continue at `addr`.
    Call { addr: u16 },
    /// 3XKK: skip the next instruction if Vx == kk.
    SkipIfEqual { x: u8, kk: u8 },
    /// 4XKK: skip the next instruction if Vx != kk.
    SkipIfNotEqual { x: u8, kk: u8 },
    /// 5XY_: skip the next instruction if Vx == Vy.
    SkipIfRegistersEqual { x: u8, y: u8 },
    /// 6XKK: Vx = kk.
    LoadImmediate { x: u8, kk: u8 },
    /// 7XKK: Vx = Vx + kk, saturating at 255.
    AddImmediate { x: u8, kk: u8 },
    /// 8XY0: Vx = Vy.
    Assign { x: u8, y: u8 },
    /// 8XY1: Vx = Vx | Vy.
    Or { x: u8, y: u8 },
    /// 8XY2: Vx = Vx & Vy.
    And { x: u8, y: u8 },
    /// 8XY3: Vx = Vx ^ Vy.
    Xor { x: u8, y: u8 },
    /// 8XY4: VF = carry of Vx + Vy, then Vx = Vx + Vy saturating at 255.
    Add { x: u8, y: u8 },
    /// 8XY5: VF = (Vx > Vy), then Vx = Vx - Vy saturating at 0.
    Sub { x: u8, y: u8 },
    /// 8XY6: VF = lowest bit of Vx, then Vx = Vx >> 1.
    ShiftRight { x: u8, y: u8 },
    /// 8XY7: VF = (Vy > Vx), then Vx = Vy - Vx saturating at 0.
    SubReverse { x: u8, y: u8 },
    /// 8XYE: VF = highest bit of Vx, then Vx = Vx << 1.
    ShiftLeft { x: u8, y: u8 },
    /// 9XY_: skip the next instruction if Vx != Vy.
    SkipIfRegistersNotEqual { x: u8, y: u8 },
    /// ANNN: I = addr.
    LoadIndex { addr: u16 },
    /// BNNN: continue at addr + V0.
    JumpOffset { addr: u16 },
    /// CXKK: Vx = a random byte & kk.
    Random { x: u8, kk: u8 },
    /// DXYN: draw the `n` bytes at I at (Vx, Vy); VF = collision.
    Draw { x: u8, y: u8, n: u8 },
    /// EX9E: skip the next instruction if key Vx is down.
    SkipIfKey { x: u8 },
    /// EXA1: skip the next instruction if key Vx is up.
    SkipIfNotKey { x: u8 },
    /// FX07: Vx = delay timer.
    ReadDelay { x: u8 },
    /// FX0A: wait for a key and store it in Vx.
    WaitKey { x: u8 },
    /// FX15: delay timer = Vx.
    SetDelay { x: u8 },
    /// FX18: sound timer = Vx.
    SetSound { x: u8 },
    /// FX1E: I = I + Vx, kept to twelve bits.
    AddIndex { x: u8 },
    /// FX29: I = address of the font glyph of digit Vx.
    FontGlyph { x: u8 },
    /// FX33: store the decimal digits of Vx at I, I+1, I+2.
    StoreBcd { x: u8 },
    /// FX55: store V0 to Vx at I onwards.
    StoreRegisters { x: u8 },
    /// FX65: load V0 to Vx from I onwards.
    LoadRegisters { x: u8 },
    /// Any other opcode.
    Invalid { opcode: u16 },
}

impl Instruction {
    /// Register numbers below 16, addresses below 4096, heights below 16.
    pub open spec fn wf(self) -> bool {
        match self {
            Instruction::Jump { addr } => addr < 4096,
            Instruction::Call { addr } => addr < 4096,
            Instruction::LoadIndex { addr } => addr < 4096,
            Instruction::JumpOffset { addr } => addr < 4096,
            Instruction::SkipIfEqual { x, kk } => x < 16,
            Instruction::SkipIfNotEqual { x, kk } => x < 16,
            Instruction::LoadImmediate { x, kk } => x < 16,
            Instruction::AddImmediate { x, kk } => x < 16,
            Instruction::Random { x, kk } => x < 16,
            Instruction::SkipIfRegistersEqual { x, y } => x < 16 && y < 16,
            Instruction::SkipIfRegistersNotEqual { x, y } => x < 16 && y < 16,
            Instruction::Assign { x, y } => x < 16 && y < 16,
            Instruction::Or { x, y } => x < 16 && y < 16,
            Instruction::And { x, y } => x < 16 && y < 16,
            Instruction::Xor { x, y } => x < 16 && y < 16,
            Instruction::Add { x, y } => x < 16 && y < 16,
            Instruction::Sub { x, y } => x < 16 && y < 16,
            Instruction::ShiftRight { x, y } => x < 16 && y < 16,
            Instruction::SubReverse { x, y } => x < 16 && y < 16,
            Instruction::ShiftLeft { x, y } => x < 16 && y < 16,
            Instruction::Draw { x, y, n } => x < 16 && y < 16 && n < 16,
            Instruction::SkipIfKey { x } => x < 16,
            Instruction::SkipIfNotKey { x } => x < 16,
            Instruction::ReadDelay { x } => x < 16,
            Instruction::WaitKey { x } => x < 16,
            Instruction::SetDelay { x } => x < 16,
            Instruction::SetSound { x } => x < 16,
            Instruction::AddIndex { x } => x < 16,
            Instruction::FontGlyph { x } => x < 16,
            Instruction::StoreBcd { x } => x < 16,
            Instruction::StoreRegisters { x } => x < 16,
            Instruction::LoadRegisters { x } => x < 16,
            _ => true,
        }
    }
}

/// The opcode whose high byte is `hi` and low byte is `lo`.
pub open spec fn opcode_of(hi: u8, lo: u8) -> u16 {
    (hi * 256 + lo) as u16
}

/// The instruction that the opcode `hi`, `lo` (high byte first) stands for.
pub open spec fn decoded(hi: u8, lo: u8) -> Instruction {
    let family = hi / 16;
    let x = hi % 16;
    let y = lo / 16;
    let n = lo % 16;
    let addr = (x * 256 + lo) as u16;
    let invalid = Instruction::Invalid { opcode: opcode_of(hi, lo) };
    if family == 0x0 {
        if lo == 0xE0 {
            Instruction::ClearScreen
        } else if lo == 0xEE {
            Instruction::Return
        } else {
            invalid
        }
    } else if family == 0x1 {
        Instruction::Jump { addr }
    } else if family == 0x2 {
        Instruction::Call { addr }
    } else if family == 0x3 {
        Instruction::SkipIfEqual { x, kk: lo }
    } else if family == 0x4 {
        Instruction::SkipIfNotEqual { x, kk: lo }
    } else if family == 0x5 {
        Instruction::SkipIfRegistersEqual { x, y }
    } else if family == 0x6 {
        Instruction::LoadImmediate { x, kk: lo }
    } else if family == 0x7 {
        Instruction::AddImmediate { x, kk: lo }
    } else if family == 0x8 {
        if n == 0x0 {
            Instruction::Assign { x, y }
        } else if n == 0x1 {
            Instruction::Or { x, y }
        } else if n == 0x2 {
            Instruction::And { x, y }
        } else if n == 0x3 {
            Instruction::Xor { x, y }
        } else if n == 0x4 {
            Instruction::Add { x, y }
        } else if n == 0x5 {
            Instruction::Sub { x, y }
        } else if n == 0x6 {
            Instruction::ShiftRight { x, y }
        } else if n == 0x7 {
            Instruction::SubReverse { x, y }
        } else if n == 0xE {
            Instruction::ShiftLeft { x, y }
        } else {
            invalid
        }
    } else if family == 0x9 {
        Instruction::SkipIfRegistersNotEqual { x, y }
    } else if family == 0xA {
        Instruction::LoadIndex { addr }
    } else if family == 0xB {
        Instruction::JumpOffset { addr }
    } else if family == 0xC {
        Instruction::Random { x, kk: lo }
    } else if family == 0xD {
        Instruction::Draw { x, y, n }
    } else if family == 0xE {
        if lo == 0x9E {
            Instruction::SkipIfKey { x }
        } else if lo == 0xA1 {
            Instruction::SkipIfNotKey { x }
        } else {
            invalid
        }
    } else {
        if lo == 0x07 {
            Instruction::ReadDelay { x }
        } else if lo == 0x0A {
            Instruction::WaitKey { x }
        } else if lo == 0x15 {
            Instruction::SetDelay { x }
        } else if lo == 0x18 {
            Instruction::SetSound { x }
        } else if lo == 0x1E {
            Instruction::AddIndex { x }
        } else if lo == 0x29 {
            Instruction::FontGlyph { x }
        } else if lo == 0x33 {
            Instruction::StoreBcd { x }
        } else if lo == 0x55 {
            Instruction::StoreRegisters { x }
        } else if lo == 0x65 {
            Instruction::LoadRegisters { x }
        } else {
            invalid
        }
    }
}

/// Every opcode decodes to a well-formed instruction.
pub proof fn lemma_decoded_wf(hi: u8, lo: u8)
    ensures
        decoded(hi, lo).wf(),
{
}

/// The 12-bit address NNN of an opcode _NNN.
pub fn extract_address(hi: u8, lo: u8) -> (addr: u16)
    ensures
        addr == (hi % 16) * 256 + lo,
        addr < 4096,
{
    (hi % 16) as u16 * 256 + lo as u16
}

/// The register X and byte KK of an opcode _XKK.
pub fn xkk(hi: u8, lo: u8) -> (r: (u8, u8))
    ensures
        r == (hi % 16, lo),
{
    (hi % 16, lo)
}

/// The registers X and Y and the low nibble N of an opcode _XYN.
pub fn xyn(hi: u8, lo: u8) -> (r: (u8, u8, u8))
    ensures
        r == (hi % 16, lo / 16, lo % 16),
{
    (hi % 16, lo / 16, lo % 16)
}

/// The 16-bit opcode formed by two bytes, high byte first.
pub fn opcode(hi: u8, lo: u8) -> (op: u16)
    ensures
        op == opcode_of(hi, lo),
        op == hi * 256 + lo,
{
    hi as u16 * 256 + lo as u16
}

/// Decodes the opcode `hi`, `lo`: first on its high nibble, then on the fields
/// that its family reads.
pub fn decode(hi: u8, lo: u8) -> (ins: Instruction)
    ensures
        ins == decoded(hi, lo),
        ins.wf(),
{
    let addr = extract_address(hi, lo);
    let (x, kk) = xkk(hi, lo);
    let (_, y, n) = xyn(hi, lo);
    let invalid = Instruction::Invalid { opcode: opcode(hi, lo) };
    match hi / 16 {
        0x0 => match lo {
            0xE0 => Instruction::ClearScreen,
            0xEE => Instruction::Return,
            _ => invalid,
        },
        0x1 => Instruction::Jump { addr },
        0x2 => Instruction::Call { addr },
        0x3 => Instruction::SkipIfEqual { x, kk },
        0x4 => Instruction::SkipIfNotEqual { x, kk },
        0x5 => Instruction::SkipIfRegistersEqual { x, y },
        0x6 => Instruction::LoadImmediate { x, kk },
        0x7 => Instruction::AddImmediate { x, kk },
        0x8 => match n {
            0x0 => Instruction::Assign { x, y },
            0x1 => Instruction::Or { x, y },
            0x2 => Instruction::And { x, y },
            0x3 => Instruction::Xor { x, y },
            0x4 => Instruction::Add { x, y },
            0x5 => Instruction::Sub { x, y },
            0x6 => Instruction::ShiftRight { x, y },
            0x7 => Instruction::SubReverse { x, y },
            0xE => Instruction::ShiftLeft { x, y },
            _ => invalid,
        },
        0x9 => Instruction::SkipIfRegistersNotEqual { x, y },
        0xA => Instruction::LoadIndex { addr },
        0xB => Instruction::JumpOffset { addr },
        0xC => Instruction::Random { x, kk },
        0xD => Instruction::Draw { x, y, n },
        0xE => match kk {
            0x9E => Instruction::SkipIfKey { x },
            0xA1 => Instruction::SkipIfNotKey { x },
            _ => invalid,
        },
        _ => match kk {
            0x07 => Instruction::ReadDelay { x },
            0x0A => Instruction::WaitKey { x },
            0x15 => Instruction::SetDelay { x },
            0x18 => Instruction::SetSound { x },
            0x1E => Instruction::AddIndex { x },
            0x29 => Instruction::FontGlyph { x },
            0x33 => Instruction::StoreBcd { x },
            0x55 => Instruction::StoreRegisters { x },
            0x65 => Instruction::LoadRegisters { x },
            _ => invalid,
        },
    }
}

} // verus!
