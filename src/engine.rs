//! The fetch-decode-execute engine and its model.
//!
//! `MachineState` is the whole machine as mathematics; `executed` and `stepped`
//! say what one instruction and one step do to it. `Engine` is proved to follow
//! them.
use crate::display::{collides, drawn, DisplayBuffer};
use crate::fault::Fault;
use crate::instruction::{decode, decoded, Instruction};
use crate::keypad::{key_down, lowest_key_down, Keypad};
use crate::memory::{initial_memory, with_program, Memory, GLYPH_LEN, MAX_PROGRAM_LEN, MEMORY_SIZE};
use crate::registers::{RegisterFile, START_ADDRESS};
use crate::stack::{CallStack, STACK_DEPTH};
use crate::timers::{count_down, TimerPair};
use vstd::prelude::*;

verus! {

/// The whole machine.
#[verifier::ext_equal]
pub struct MachineState {
    /// The 4096 bytes of memory.
    pub memory: Seq<u8>,
    /// V0 to VF.
    pub v: Seq<u8>,
    /// The index register.
    pub i: u16,
    /// The program counter.
    pub pc: u16,
    /// Return addresses, bottom first.
    pub stack: Seq<u16>,
    /// The delay timer.
    pub delay: u8,
    /// The sound timer.
    pub sound: u8,
    /// The 32 display rows.
    pub display: Seq<u64>,
    /// The fault that halted the machine, if one did.
    pub fault: Option<Fault>,
}

impl MachineState {
    /// The shapes that every machine has.
    pub open spec fn wf(self) -> bool {
        &&& self.memory.len() == MEMORY_SIZE
        &&& self.v.len() == 16
        &&& self.i < 4096
        &&& self.stack.len() <= STACK_DEPTH
        &&& self.display.len() == 32
    }

    /// The machine with register `x` set to `value`.
    pub open spec fn set_v(self, x: int, value: u8) -> MachineState {
        MachineState { v: self.v.update(x, value), ..self }
    }

    /// The machine with the program counter set to `pc`.
    pub open spec fn set_pc(self, pc: u16) -> MachineState {
        MachineState { pc, ..self }
    }
}

/// The machine after power-on: memory holds the font table, everything else
/// is zero, and the program counter stands at 0x200.
pub open spec fn initial_state() -> MachineState {
    MachineState {
        memory: initial_memory(),
        v: Seq::new(16, |k: int| 0u8),
        i: 0,
        pc: START_ADDRESS,
        stack: Seq::empty(),
        delay: 0,
        sound: 0,
        display: Seq::new(32, |r: int| 0u64),
        fault: None,
    }
}

/// `a + b`, or 255 when that does not fit in a byte.
pub open spec fn saturating_add(a: u8, b: u8) -> u8 {
    if a + b > 255 {
        255
    } else {
        (a + b) as u8
    }
}

/// `a - b`, or 0 when `b` is larger.
pub open spec fn saturating_sub(a: u8, b: u8) -> u8 {
    if a > b {
        (a - b) as u8
    } else {
        0
    }
}

/// 1 for true, 0 for false.
pub open spec fn flag(b: bool) -> u8 {
    if b {
        1
    } else {
        0
    }
}

/// The address of the next instruction: two bytes on, back to 0 at the end of
/// memory.
pub open spec fn advance(pc: u16) -> u16 {
    if pc + 2 >= MEMORY_SIZE {
        0
    } else {
        (pc + 2) as u16
    }
}

/// The address of the instruction before: two bytes back, round from 0 to the
/// end of memory.
pub open spec fn rewind(pc: u16) -> u16 {
    if pc >= 2 {
        (pc - 2) as u16
    } else {
        (pc + MEMORY_SIZE - 2) as u16
    }
}

/// The machine with the next instruction skipped when `cond` holds.
pub open spec fn skip_if(s: MachineState, cond: bool) -> MachineState {
    if cond {
        s.set_pc(advance(s.pc))
    } else {
        s
    }
}

/// `mem` with the hundreds, tens and ones digits of `value` at `at`, `at + 1`,
/// `at + 2`.
pub open spec fn bcd_written(mem: Seq<u8>, at: int, value: u8) -> Seq<u8> {
    mem.update(at, value / 100).update(at + 1, (value / 10) % 10).update(at + 2, value % 10)
}

/// `mem` with V0 to Vx stored from `at` on.
pub open spec fn registers_stored(mem: Seq<u8>, at: int, v: Seq<u8>, x: int) -> Seq<u8> {
    Seq::new(mem.len(), |a: int| if at <= a <= at + x { v[a - at] } else { mem[a] })
}

/// `v` with V0 to Vx loaded from `mem` at `at` on.
pub open spec fn registers_loaded(v: Seq<u8>, mem: Seq<u8>, at: int, x: int) -> Seq<u8> {
    Seq::new(v.len(), |k: int| if k <= x { mem[at + k] } else { v[k] })
}

/// Result type of one instruction: the machine after it and the outcome.
pub type Outcome = (MachineState, Result<(), Fault>);

/// 00E0, 00EE, 1NNN, 2NNN and BNNN: the screen and the flow of control.
#[verifier::opaque]
pub open spec fn executed_flow(s: MachineState, ins: Instruction) -> Outcome {
    let ok = Ok::<(), Fault>(());
    match ins {
        Instruction::ClearScreen => (
            MachineState { display: Seq::new(32, |r: int| 0u64), ..s },
            ok,
        ),
        Instruction::Return => if s.stack.len() == 0 {
            (s, Err(Fault::StackUnderflow))
        } else {
            (MachineState { pc: s.stack.last(), stack: s.stack.drop_last(), ..s }, ok)
        },
        Instruction::Jump { addr } => (s.set_pc(addr), ok),
        Instruction::Call { addr } => if s.stack.len() >= STACK_DEPTH {
            (s, Err(Fault::StackOverflow))
        } else {
            (MachineState { pc: addr, stack: s.stack.push(s.pc), ..s }, ok)
        },
        Instruction::JumpOffset { addr } => (s.set_pc((addr + s.v[0]) as u16), ok),
        _ => (s, ok),
    }
}

/// 3XKK, 4XKK, 5XY0, 9XY0, EX9E and EXA1: the conditional skips.
#[verifier::opaque]
pub open spec fn executed_skip(s: MachineState, ins: Instruction, keys: u16) -> MachineState {
    match ins {
        Instruction::SkipIfEqual { x, kk } => skip_if(s, s.v[x as int] == kk),
        Instruction::SkipIfNotEqual { x, kk } => skip_if(s, s.v[x as int] != kk),
        Instruction::SkipIfRegistersEqual { x, y } => skip_if(s, s.v[x as int] == s.v[y as int]),
        Instruction::SkipIfRegistersNotEqual { x, y } => skip_if(
            s,
            s.v[x as int] != s.v[y as int],
        ),
        Instruction::SkipIfKey { x } => skip_if(s, key_down(keys, s.v[x as int])),
        Instruction::SkipIfNotKey { x } => skip_if(s, !key_down(keys, s.v[x as int])),
        _ => s,
    }
}

/// 6XKK, 7XKK, 8XY0 to 8XY3 and CXKK: the instructions that write Vx alone.
#[verifier::opaque]
pub open spec fn executed_move(s: MachineState, ins: Instruction, random: u8) -> MachineState {
    match ins {
        Instruction::LoadImmediate { x, kk } => s.set_v(x as int, kk),
        Instruction::AddImmediate { x, kk } => s.set_v(x as int, saturating_add(s.v[x as int], kk)),
        Instruction::Assign { x, y } => s.set_v(x as int, s.v[y as int]),
        Instruction::Or { x, y } => s.set_v(x as int, s.v[x as int] | s.v[y as int]),
        Instruction::And { x, y } => s.set_v(x as int, s.v[x as int] & s.v[y as int]),
        Instruction::Xor { x, y } => s.set_v(x as int, s.v[x as int] ^ s.v[y as int]),
        Instruction::Random { x, kk } => s.set_v(x as int, random & kk),
        _ => s,
    }
}

/// 8XY4 to 8XY7 and 8XYE: the instructions that write VF, then Vx.
#[verifier::opaque]
pub open spec fn executed_flag(s: MachineState, ins: Instruction) -> MachineState {
    match ins {
        Instruction::Add { x, y } => {
            let (a, b) = (s.v[x as int], s.v[y as int]);
            s.set_v(15, flag(a + b > 255)).set_v(x as int, saturating_add(a, b))
        },
        Instruction::Sub { x, y } => {
            let (a, b) = (s.v[x as int], s.v[y as int]);
            s.set_v(15, flag(a > b)).set_v(x as int, saturating_sub(a, b))
        },
        Instruction::ShiftRight { x, y } => {
            let a = s.v[x as int];
            s.set_v(15, a % 2).set_v(x as int, a / 2)
        },
        Instruction::SubReverse { x, y } => {
            let (a, b) = (s.v[x as int], s.v[y as int]);
            s.set_v(15, flag(b > a)).set_v(x as int, saturating_sub(b, a))
        },
        Instruction::ShiftLeft { x, y } => {
            let a = s.v[x as int];
            s.set_v(15, a / 128).set_v(x as int, ((a * 2) % 256) as u8)
        },
        _ => s,
    }
}

/// ANNN, FX07, FX0A, FX15, FX18, FX1E and FX29: the index register, the timers
/// and the wait for a key.
#[verifier::opaque]
pub open spec fn executed_index_timer(s: MachineState, ins: Instruction, keys: u16) -> MachineState {
    match ins {
        Instruction::LoadIndex { addr } => MachineState { i: addr, ..s },
        Instruction::ReadDelay { x } => s.set_v(x as int, s.delay),
        Instruction::WaitKey { x } => match lowest_key_down(keys) {
            Some(k) => s.set_v(x as int, k),
            None => s.set_pc(rewind(s.pc)),
        },
        Instruction::SetDelay { x } => MachineState { delay: s.v[x as int], ..s },
        Instruction::SetSound { x } => MachineState { sound: s.v[x as int], ..s },
        Instruction::AddIndex { x } => MachineState { i: ((s.i + s.v[x as int]) % 4096) as u16, ..s },
        Instruction::FontGlyph { x } => MachineState {
            i: (GLYPH_LEN * (s.v[x as int] % 16)) as u16,
            ..s
        },
        _ => s,
    }
}

/// DXYN: the `n` bytes at I drawn at (Vx mod 64, Vy mod 32), VF set to the
/// collision flag; `AddressOutOfRange` when they would pass the end of memory.
#[verifier::opaque]
pub open spec fn executed_draw(s: MachineState, x: u8, y: u8, n: u8) -> Outcome {
    if s.i + n > MEMORY_SIZE {
        (s, Err(Fault::AddressOutOfRange(s.i as usize)))
    } else {
        let sprite = s.memory.subrange(s.i as int, s.i + n);
        let col = (s.v[x as int] % 64) as u64;
        let row = (s.v[y as int] % 32) as int;
        (
            MachineState {
                display: drawn(s.display, col, row, sprite),
                v: s.v.update(15, flag(collides(s.display, col, row, sprite))),
                ..s
            },
            Ok(()),
        )
    }
}

/// FX33, FX55 and FX65: decimal digits of Vx, and V0 to Vx stored or loaded, at
/// I on; `AddressOutOfRange` when they would pass the end of memory.
#[verifier::opaque]
pub open spec fn executed_memory(s: MachineState, ins: Instruction) -> Outcome {
    let out_of_range = (s, Err(Fault::AddressOutOfRange(s.i as usize)));
    match ins {
        Instruction::StoreBcd { x } => if s.i + 3 > MEMORY_SIZE {
            out_of_range
        } else {
            (MachineState { memory: bcd_written(s.memory, s.i as int, s.v[x as int]), ..s }, Ok(()))
        },
        Instruction::StoreRegisters { x } => if s.i + x + 1 > MEMORY_SIZE {
            out_of_range
        } else {
            (
                MachineState { memory: registers_stored(s.memory, s.i as int, s.v, x as int), ..s },
                Ok(()),
            )
        },
        Instruction::LoadRegisters { x } => if s.i + x + 1 > MEMORY_SIZE {
            out_of_range
        } else {
            (
                MachineState { v: registers_loaded(s.v, s.memory, s.i as int, x as int), ..s },
                Ok(()),
            )
        },
        _ => (s, Ok(())),
    }
}

/// What executing `ins` does to `s`, with `keys` the keypad mask and `random`
/// the byte that the random source supplies; the program counter has already
/// been moved past the instruction. On a fault the machine is left as it was.
pub open spec fn executed(s: MachineState, ins: Instruction, keys: u16, random: u8) -> Outcome {
    let ok = Ok::<(), Fault>(());
    match ins {
        Instruction::ClearScreen
        | Instruction::Return
        | Instruction::Jump { .. }
        | Instruction::Call { .. }
        | Instruction::JumpOffset { .. } => executed_flow(s, ins),
        Instruction::SkipIfEqual { .. }
        | Instruction::SkipIfNotEqual { .. }
        | Instruction::SkipIfRegistersEqual { .. }
        | Instruction::SkipIfRegistersNotEqual { .. }
        | Instruction::SkipIfKey { .. }
        | Instruction::SkipIfNotKey { .. } => (executed_skip(s, ins, keys), ok),
        Instruction::LoadImmediate { .. }
        | Instruction::AddImmediate { .. }
        | Instruction::Assign { .. }
        | Instruction::Or { .. }
        | Instruction::And { .. }
        | Instruction::Xor { .. }
        | Instruction::Random { .. } => (executed_move(s, ins, random), ok),
        Instruction::Add { .. }
        | Instruction::Sub { .. }
        | Instruction::ShiftRight { .. }
        | Instruction::SubReverse { .. }
        | Instruction::ShiftLeft { .. } => (executed_flag(s, ins), ok),
        Instruction::LoadIndex { .. }
        | Instruction::ReadDelay { .. }
        | Instruction::WaitKey { .. }
        | Instruction::SetDelay { .. }
        | Instruction::SetSound { .. }
        | Instruction::AddIndex { .. }
        | Instruction::FontGlyph { .. } => (executed_index_timer(s, ins, keys), ok),
        Instruction::Draw { x, y, n } => executed_draw(s, x, y, n),
        Instruction::StoreBcd { .. }
        | Instruction::StoreRegisters { .. }
        | Instruction::LoadRegisters { .. } => executed_memory(s, ins),
        Instruction::Invalid { opcode } => (s, Err(Fault::InvalidInstruction(opcode))),
    }
}

/// What one step does: a halted machine reports its fault and stays as it is;
/// otherwise the two bytes at the program counter are fetched (a fetch past
/// the end of memory halts the machine), the program counter advances, and the
/// decoded instruction is executed. A fatal fault halts the machine.
pub open spec fn stepped(s: MachineState, keys: u16, random: u8) -> (
    MachineState,
    Result<(), Fault>,
) {
    match s.fault {
        Some(f) => (s, Err(f)),
        None => if s.pc + 1 >= MEMORY_SIZE {
            let f = Fault::AddressOutOfRange(s.pc as usize);
            (MachineState { fault: Some(f), ..s }, Err(f))
        } else {
            let ins = decoded(s.memory[s.pc as int], s.memory[s.pc + 1]);
            let (t, r) = executed(s.set_pc(advance(s.pc)), ins, keys, random);
            match r {
                Err(f) => if f.spec_is_fatal() {
                    (MachineState { fault: Some(f), ..t }, r)
                } else {
                    (t, r)
                },
                Ok(_) => (t, r),
            }
        },
    }
}

/// Relies on `rand::thread_rng` and `rand::Rng::gen::<u8>`: one byte from the
/// thread-local generator. Nothing is promised of its value.
#[verifier::external_body]
fn random_byte() -> u8 {
    rand::Rng::gen::<u8>(&mut rand::thread_rng())
}

/// The address two bytes on, back to 0 at the end of memory.
fn next_address(pc: u16) -> (r: u16)
    ensures
        r == advance(pc),
{
    if pc >= 4094 {
        0
    } else {
        pc + 2
    }
}

/// The address two bytes back, round from 0 to the end of memory.
fn previous_address(pc: u16) -> (r: u16)
    ensures
        r == rewind(pc),
{
    if pc >= 2 {
        pc - 2
    } else {
        pc + 4094
    }
}

/// A CHIP-8 machine. It owns its memory, registers, stack, timers and screen,
/// and changes them one instruction per step.
pub struct Engine {
    memory: Memory,
    registers: RegisterFile,
    stack: CallStack,
    timers: TimerPair,
    display: DisplayBuffer,
    fault: Option<Fault>,
}

impl View for Engine {
    type V = MachineState;

    closed spec fn view(&self) -> MachineState {
        MachineState {
            memory: self.memory@,
            v: self.registers@.v,
            i: self.registers@.i,
            pc: self.registers@.pc,
            stack: self.stack@,
            delay: self.timers@.0,
            sound: self.timers@.1,
            display: self.display@,
            fault: self.fault,
        }
    }
}

impl Engine {
    /// A machine at power-on, with no program loaded.
    pub fn new() -> (e: Engine)
        ensures
            e@ == initial_state(),
    {
        let memory = Memory::new();
        let registers = RegisterFile::new();
        let stack = CallStack::new();
        let timers = TimerPair::new();
        let display = DisplayBuffer::new();
        proof {
            memory.lemma_size();
            display.lemma_row_count();
        }
        let e = Engine { memory, registers, stack, timers, display, fault: None };
        assert(e@ =~= initial_state());
        e
    }

    /// Copies `program` to memory from 0x200 on; fails with `ProgramTooLarge`,
    /// changing nothing, when it has more than 3584 bytes.
    pub fn load_program(&mut self, program: &[u8]) -> (r: Result<(), Fault>)
        ensures
            program@.len() <= MAX_PROGRAM_LEN ==> r == Ok::<(), Fault>(())
                && final(self)@ == (MachineState {
                memory: with_program(old(self)@.memory, program@),
                ..old(self)@
            }),
            program@.len() > MAX_PROGRAM_LEN ==> r == Err::<(), Fault>(
                Fault::ProgramTooLarge,
            ) && final(self)@ == old(self)@,
    {
        self.memory.load_program(program)
    }

    /// Counts both timers down by one, stopping at zero.
    pub fn tick_timers(&mut self)
        ensures
            final(self)@ == (MachineState {
                delay: count_down(old(self)@.delay),
                sound: count_down(old(self)@.sound),
                ..old(self)@
            }),
    {
        self.timers.tick();
    }

    /// Register V(x mod 16).
    pub fn register(&self, x: u8) -> (r: u8)
        ensures
            r == self@.v[(x % 16) as int],
    {
        self.registers.get(x)
    }

    /// The index register, which keeps twelve bits.
    pub fn index(&self) -> (r: u16)
        ensures
            r == self@.i,
            r < 4096,
    {
        self.registers.index()
    }

    /// The program counter.
    pub fn pc(&self) -> (r: u16)
        ensures
            r == self@.pc,
    {
        self.registers.pc()
    }

    /// The delay timer.
    pub fn delay_timer(&self) -> (r: u8)
        ensures
            r == self@.delay,
    {
        self.timers.delay()
    }

    /// The sound timer.
    pub fn sound_timer(&self) -> (r: u8)
        ensures
            r == self@.sound,
    {
        self.timers.sound()
    }

    /// Number of return addresses on the stack.
    pub fn stack_depth(&self) -> (r: usize)
        ensures
            r == self@.stack.len(),
            r <= STACK_DEPTH,
    {
        self.stack.depth()
    }

    /// The fault that halted the machine, if one did.
    pub fn fault(&self) -> (r: Option<Fault>)
        ensures
            r == self@.fault,
    {
        self.fault
    }

    /// The screen.
    pub fn display(&self) -> (d: &DisplayBuffer)
        ensures
            d@ == self@.display,
    {
        &self.display
    }

    /// The memory.
    pub fn memory(&self) -> (m: &Memory)
        ensures
            m@ == self@.memory,
    {
        &self.memory
    }

    /// One step with the given keypad state and random byte: see `stepped`.
    pub fn step_with(&mut self, keypad: &Keypad, random: u8) -> (r: Result<(), Fault>)
        ensures
            final(self)@ == stepped(old(self)@, keypad@, random).0,
            r == stepped(old(self)@, keypad@, random).1,
    {
        if let Some(f) = self.fault {
            return Err(f);
        }
        proof {
            self.memory.lemma_size();
        }
        let pc = self.registers.pc();
        let opcode_bytes = match self.memory.read_range(pc as usize, 2) {
            Ok(b) => b,
            Err(f) => {
                self.fault = Some(f);
                return Err(f);
            },
        };
        let ins = decode(opcode_bytes[0], opcode_bytes[1]);
        self.registers.set_pc(next_address(pc));
        let r = self.execute(ins, keypad, random);
        if let Err(f) = r {
            if f.is_fatal() {
                self.fault = Some(f);
            }
        }
        r
    }

    /// One step, with a random byte drawn from the thread-local generator for
    /// the step's use (a CXKK instruction is the one that reads it).
    pub fn step(&mut self, keypad: &Keypad) -> (r: Result<(), Fault>)
        ensures
            exists|b: u8|
                final(self)@ == #[trigger] stepped(old(self)@, keypad@, b).0 && r == stepped(
                    old(self)@,
                    keypad@,
                    b,
                ).1,
    {
        let b = random_byte();
        self.step_with(keypad, b)
    }

    /// Executes one decoded instruction, the program counter already standing
    /// past it; `random` is used by `Random` alone and `keypad` by the key
    /// instructions alone.
    pub fn execute(&mut self, ins: Instruction, keypad: &Keypad, random: u8) -> (r: Result<(), Fault>)
        requires
            ins.wf(),
        ensures
            final(self)@ == executed(old(self)@, ins, keypad@, random).0,
            r == executed(old(self)@, ins, keypad@, random).1,
    {
        match ins {
            Instruction::ClearScreen
            | Instruction::Return
            | Instruction::Jump { .. }
            | Instruction::Call { .. }
            | Instruction::JumpOffset { .. } => self.execute_flow(ins, keypad, random),
            Instruction::SkipIfEqual { .. }
            | Instruction::SkipIfNotEqual { .. }
            | Instruction::SkipIfRegistersEqual { .. }
            | Instruction::SkipIfRegistersNotEqual { .. }
            | Instruction::SkipIfKey { .. }
            | Instruction::SkipIfNotKey { .. } => {
                self.execute_skip(ins, keypad, random);
                Ok(())
            },
            Instruction::LoadImmediate { .. }
            | Instruction::AddImmediate { .. }
            | Instruction::Assign { .. }
            | Instruction::Random { .. } => {
                self.execute_move(ins, keypad, random);
                Ok(())
            },
            Instruction::Or { .. } | Instruction::And { .. } | Instruction::Xor { .. } => {
                self.execute_bitwise(ins, keypad, random);
                Ok(())
            },
            Instruction::Add { .. }
            | Instruction::Sub { .. }
            | Instruction::ShiftRight { .. }
            | Instruction::SubReverse { .. }
            | Instruction::ShiftLeft { .. } => {
                self.execute_flag_alu(ins, keypad, random);
                Ok(())
            },
            Instruction::LoadIndex { .. }
            | Instruction::ReadDelay { .. }
            | Instruction::WaitKey { .. }
            | Instruction::SetDelay { .. }
            | Instruction::SetSound { .. }
            | Instruction::AddIndex { .. }
            | Instruction::FontGlyph { .. } => {
                self.execute_index_timer(ins, keypad, random);
                Ok(())
            },
            Instruction::Draw { .. } => self.draw(ins, keypad, random),
            Instruction::StoreBcd { .. }
            | Instruction::StoreRegisters { .. }
            | Instruction::LoadRegisters { .. } => self.execute_memory(ins, keypad, random),
            Instruction::Invalid { opcode } => Err(Fault::InvalidInstruction(opcode)),
        }
    }

    /// Clear, return, jump, call and jump with offset.
    fn execute_flow(&mut self, ins: Instruction, keypad: &Keypad, random: u8) -> (r: Result<(), Fault>)
        requires
            ins.wf(),
            ins is ClearScreen || ins is Return || ins is Jump || ins is Call || ins is JumpOffset,
        ensures
            final(self)@ == executed(old(self)@, ins, keypad@, random).0,
            r == executed(old(self)@, ins, keypad@, random).1,
    {
        reveal(executed_flow);
        let ghost s = self@;
        match ins {
            Instruction::ClearScreen => {
                self.display.clear();
                proof {
                    self.display.lemma_row_count();
                }
                assert(self@ =~= executed(s, ins, keypad@, random).0);
                Ok(())
            },
            Instruction::Return => match self.stack.pop() {
                Ok(addr) => {
                    self.registers.set_pc(addr);
                    assert(self@ =~= executed(s, ins, keypad@, random).0);
                    Ok(())
                },
                Err(f) => Err(f),
            },
            Instruction::Call { addr } => {
                let here = self.registers.pc();
                match self.stack.push(here) {
                    Ok(()) => {
                        self.registers.set_pc(addr);
                        assert(self@ =~= executed(s, ins, keypad@, random).0);
                        Ok(())
                    },
                    Err(f) => Err(f),
                }
            },
            Instruction::Jump { addr } => {
                self.registers.set_pc(addr);
                assert(self@ =~= executed(s, ins, keypad@, random).0);
                Ok(())
            },
            Instruction::JumpOffset { addr } => {
                let v0 = self.registers.get(0);
                self.registers.set_pc(addr + v0 as u16);
                assert(self@ =~= executed(s, ins, keypad@, random).0);
                Ok(())
            },
            _ => Ok(()),
        }
    }

    /// The six conditional skips.
    fn execute_skip(&mut self, ins: Instruction, keypad: &Keypad, random: u8)
        requires
            ins.wf(),
            ins is SkipIfEqual || ins is SkipIfNotEqual || ins is SkipIfRegistersEqual
                || ins is SkipIfRegistersNotEqual || ins is SkipIfKey || ins is SkipIfNotKey,
        ensures
            final(self)@ == executed(old(self)@, ins, keypad@, random).0,
            executed(old(self)@, ins, keypad@, random).1 == Ok::<(), Fault>(()),
    {
        reveal(executed_skip);
        let cond = match ins {
            Instruction::SkipIfEqual { x, kk } => self.registers.get(x) == kk,
            Instruction::SkipIfNotEqual { x, kk } => self.registers.get(x) != kk,
            Instruction::SkipIfRegistersEqual { x, y } => self.registers.get(x)
                == self.registers.get(y),
            Instruction::SkipIfRegistersNotEqual { x, y } => self.registers.get(x)
                != self.registers.get(y),
            Instruction::SkipIfKey { x } => keypad.is_pressed(self.registers.get(x)),
            Instruction::SkipIfNotKey { x } => !keypad.is_pressed(self.registers.get(x)),
            _ => false,
        };
        if cond {
            let pc = self.registers.pc();
            self.registers.set_pc(next_address(pc));
        }
        assert(self@ =~= executed(old(self)@, ins, keypad@, random).0);
    }

    /// Loads, additions of a byte, copies and random bytes: the instructions
    /// that write Vx from a byte or from one register.
    fn execute_move(&mut self, ins: Instruction, keypad: &Keypad, random: u8)
        requires
            ins.wf(),
            ins is LoadImmediate || ins is AddImmediate || ins is Assign || ins is Random,
        ensures
            final(self)@ == executed(old(self)@, ins, keypad@, random).0,
            executed(old(self)@, ins, keypad@, random).1 == Ok::<(), Fault>(()),
    {
        reveal(executed_move);
        let ghost s = self@;
        match ins {
            Instruction::LoadImmediate { x, kk } => {
                self.registers.set(x, kk);
                assert(self@ =~= executed(s, ins, keypad@, random).0);
            },
            Instruction::AddImmediate { x, kk } => {
                let a = self.registers.get(x);
                let sum = if a as u16 + kk as u16 > 255 {
                    255
                } else {
                    a + kk
                };
                self.registers.set(x, sum);
                assert(self@ =~= executed(s, ins, keypad@, random).0);
            },
            Instruction::Assign { x, y } => {
                let b = self.registers.get(y);
                self.registers.set(x, b);
                assert(self@ =~= executed(s, ins, keypad@, random).0);
            },
            Instruction::Random { x, kk } => {
                self.registers.set(x, random & kk);
                assert(self@ =~= executed(s, ins, keypad@, random).0);
            },
            _ => {},
        }
    }

    /// OR, AND and XOR of two registers into Vx.
    fn execute_bitwise(&mut self, ins: Instruction, keypad: &Keypad, random: u8)
        requires
            ins.wf(),
            ins is Or || ins is And || ins is Xor,
        ensures
            final(self)@ == executed(old(self)@, ins, keypad@, random).0,
            executed(old(self)@, ins, keypad@, random).1 == Ok::<(), Fault>(()),
    {
        reveal(executed_move);
        let ghost s = self@;
        match ins {
            Instruction::Or { x, y } => {
                let value = self.registers.get(x) | self.registers.get(y);
                self.registers.set(x, value);
                assert(self@ =~= executed(s, ins, keypad@, random).0);
            },
            Instruction::And { x, y } => {
                let value = self.registers.get(x) & self.registers.get(y);
                self.registers.set(x, value);
                assert(self@ =~= executed(s, ins, keypad@, random).0);
            },
            Instruction::Xor { x, y } => {
                let value = self.registers.get(x) ^ self.registers.get(y);
                self.registers.set(x, value);
                assert(self@ =~= executed(s, ins, keypad@, random).0);
            },
            _ => {},
        }
    }

    /// Addition, subtractions and shifts: the instructions that write VF, then Vx.
    fn execute_flag_alu(&mut self, ins: Instruction, keypad: &Keypad, random: u8)
        requires
            ins.wf(),
            ins is Add || ins is Sub || ins is ShiftRight || ins is SubReverse || ins is ShiftLeft,
        ensures
            final(self)@ == executed(old(self)@, ins, keypad@, random).0,
            executed(old(self)@, ins, keypad@, random).1 == Ok::<(), Fault>(()),
    {
        reveal(executed_flag);
        let ghost s = self@;
        match ins {
            Instruction::Add { x, y } => {
                let a = self.registers.get(x);
                let b = self.registers.get(y);
                let carry = a as u16 + b as u16 > 255;
                self.registers.set(15, if carry {
                    1
                } else {
                    0
                });
                self.registers.set(x, if carry {
                    255
                } else {
                    a + b
                });
                assert(self@ =~= executed(s, ins, keypad@, random).0);
            },
            Instruction::Sub { x, y } => {
                let a = self.registers.get(x);
                let b = self.registers.get(y);
                self.registers.set(15, if a > b {
                    1
                } else {
                    0
                });
                self.registers.set(x, if a > b {
                    a - b
                } else {
                    0
                });
                assert(self@ =~= executed(s, ins, keypad@, random).0);
            },
            Instruction::ShiftRight { x, y } => {
                let a = self.registers.get(x);
                self.registers.set(15, a % 2);
                self.registers.set(x, a / 2);
                assert(self@ =~= executed(s, ins, keypad@, random).0);
            },
            Instruction::SubReverse { x, y } => {
                let a = self.registers.get(x);
                let b = self.registers.get(y);
                self.registers.set(15, if b > a {
                    1
                } else {
                    0
                });
                self.registers.set(x, if b > a {
                    b - a
                } else {
                    0
                });
                assert(self@ =~= executed(s, ins, keypad@, random).0);
            },
            Instruction::ShiftLeft { x, y } => {
                let a = self.registers.get(x);
                self.registers.set(15, a / 128);
                self.registers.set(x, ((a as u16 * 2) % 256) as u8);
                assert(self@ =~= executed(s, ins, keypad@, random).0);
            },
            _ => {},
        }
    }

    /// The index register, the timers and the wait for a key.
    fn execute_index_timer(&mut self, ins: Instruction, keypad: &Keypad, random: u8)
        requires
            ins.wf(),
            ins is LoadIndex || ins is ReadDelay || ins is WaitKey || ins is SetDelay || ins is SetSound
                || ins is AddIndex || ins is FontGlyph,
        ensures
            final(self)@ == executed(old(self)@, ins, keypad@, random).0,
            executed(old(self)@, ins, keypad@, random).1 == Ok::<(), Fault>(()),
    {
        reveal(executed_index_timer);
        let ghost s = self@;
        match ins {
            Instruction::LoadIndex { addr } => {
                self.registers.set_index(addr);
                assert(self@ =~= executed(s, ins, keypad@, random).0);
            },
            Instruction::ReadDelay { x } => {
                let d = self.timers.delay();
                self.registers.set(x, d);
                assert(self@ =~= executed(s, ins, keypad@, random).0);
            },
            Instruction::WaitKey { x } => {
                match keypad.poll_pressed() {
                    Some(k) => self.registers.set(x, k),
                    None => {
                        let pc = self.registers.pc();
                        self.registers.set_pc(previous_address(pc));
                    },
                }
                assert(self@ =~= executed(s, ins, keypad@, random).0);
            },
            Instruction::SetDelay { x } => {
                let value = self.registers.get(x);
                self.timers.set_delay(value);
                assert(self@ =~= executed(s, ins, keypad@, random).0);
            },
            Instruction::SetSound { x } => {
                let value = self.registers.get(x);
                self.timers.set_sound(value);
                assert(self@ =~= executed(s, ins, keypad@, random).0);
            },
            Instruction::AddIndex { x } => {
                let i = self.registers.index();
                let value = self.registers.get(x);
                self.registers.set_index(i + value as u16);
                assert(self@ =~= executed(s, ins, keypad@, random).0);
            },
            Instruction::FontGlyph { x } => {
                let digit = self.registers.get(x) % 16;
                self.registers.set_index(GLYPH_LEN as u16 * digit as u16);
                assert(self@ =~= executed(s, ins, keypad@, random).0);
            },
            _ => {},
        }
    }

    /// DXYN: draws the `n` bytes at I at (Vx, Vy) and sets VF to the collision
    /// flag.
    fn draw(&mut self, ins: Instruction, keypad: &Keypad, random: u8) -> (r: Result<(), Fault>)
        requires
            ins.wf(),
            ins is Draw,
        ensures
            final(self)@ == executed(old(self)@, ins, keypad@, random).0,
            r == executed(old(self)@, ins, keypad@, random).1,
    {
        reveal(executed_draw);
        let (x, y, n) = match ins {
            Instruction::Draw { x, y, n } => (x, y, n),
            _ => (0, 0, 0),
        };
        proof {
            self.memory.lemma_size();
        }
        let i = self.registers.index();
        match self.memory.read_range(i as usize, n as usize) {
            Err(f) => Err(f),
            Ok(sprite) => {
                let vx = self.registers.get(x);
                let vy = self.registers.get(y);
                let hit = self.display.draw_sprite(vx, vy, sprite.as_slice());
                self.registers.set(15, if hit {
                    1
                } else {
                    0
                });
                assert(self@ =~= executed(old(self)@, ins, keypad@, random).0);
                Ok(())
            },
        }
    }

    /// The decimal digits of Vx, and V0 to Vx stored or loaded, at I on.
    fn execute_memory(&mut self, ins: Instruction, keypad: &Keypad, random: u8) -> (r: Result<(), Fault>)
        requires
            ins.wf(),
            ins is StoreBcd || ins is StoreRegisters || ins is LoadRegisters,
        ensures
            final(self)@ == executed(old(self)@, ins, keypad@, random).0,
            r == executed(old(self)@, ins, keypad@, random).1,
    {
        match ins {
            Instruction::StoreBcd { x } => self.store_bcd(x),
            Instruction::StoreRegisters { x } => self.store_registers(x),
            Instruction::LoadRegisters { x } => self.load_registers(x),
            _ => Ok(()),
        }
    }

    /// FX33: stores the decimal digits of Vx at I, I+1 and I+2.
    fn store_bcd(&mut self, x: u8) -> (r: Result<(), Fault>)
        requires
            x < 16,
        ensures
            final(self)@ == executed(old(self)@, Instruction::StoreBcd { x }, 0, 0).0,
            r == executed(old(self)@, Instruction::StoreBcd { x }, 0, 0).1,
    {
        reveal(executed_memory);
        proof {
            self.memory.lemma_size();
        }
        let i = self.registers.index() as usize;
        if i + 3 > MEMORY_SIZE {
            return Err(Fault::AddressOutOfRange(i));
        }
        let value = self.registers.get(x);
        self.memory.store(i, value / 100);
        self.memory.store(i + 1, (value / 10) % 10);
        self.memory.store(i + 2, value % 10);
        assert(self@ =~= executed(old(self)@, Instruction::StoreBcd { x }, 0, 0).0);
        Ok(())
    }

    /// FX55: stores V0 to Vx in memory from I on.
    fn store_registers(&mut self, x: u8) -> (r: Result<(), Fault>)
        requires
            x < 16,
        ensures
            final(self)@ == executed(old(self)@, Instruction::StoreRegisters { x }, 0, 0).0,
            r == executed(old(self)@, Instruction::StoreRegisters { x }, 0, 0).1,
    {
        reveal(executed_memory);
        proof {
            self.memory.lemma_size();
            self.registers.lemma_register_count();
        }
        let ghost s = self@;
        let i = self.registers.index() as usize;
        if i + x as usize + 1 > MEMORY_SIZE {
            return Err(Fault::AddressOutOfRange(i));
        }
        let mut k: u8 = 0;
        while k <= x
            invariant
                x < 16,
                k <= x + 1,
                i == s.i,
                i + x + 1 <= MEMORY_SIZE,
                s.v.len() == 16,
                s.memory.len() == MEMORY_SIZE,
                self@ == (MachineState { memory: self@.memory, ..s }),
                self@.memory.len() == MEMORY_SIZE,
                forall|a: int|
                    0 <= a < MEMORY_SIZE ==> self@.memory[a] == (if i <= a < i + k {
                        s.v[a - i]
                    } else {
                        s.memory[a]
                    }),
            decreases x + 1 - k,
        {
            let value = self.registers.get(k);
            self.memory.store(i + k as usize, value);
            k += 1;
        }
        assert(self@.memory =~= registers_stored(s.memory, s.i as int, s.v, x as int));
        assert(self@ =~= executed(s, Instruction::StoreRegisters { x }, 0, 0).0);
        Ok(())
    }

    /// FX65: loads V0 to Vx from memory at I on.
    fn load_registers(&mut self, x: u8) -> (r: Result<(), Fault>)
        requires
            x < 16,
        ensures
            final(self)@ == executed(old(self)@, Instruction::LoadRegisters { x }, 0, 0).0,
            r == executed(old(self)@, Instruction::LoadRegisters { x }, 0, 0).1,
    {
        reveal(executed_memory);
        let ghost s = self@;
        let i = self.registers.index() as usize;
        let bytes = match self.memory.read_range(i, x as usize + 1) {
            Ok(b) => b,
            Err(f) => return Err(f),
        };
        proof {
            self.memory.lemma_size();
            self.registers.lemma_register_count();
        }
        let mut k: u8 = 0;
        while k <= x
            invariant
                x < 16,
                k <= x + 1,
                s.v.len() == 16,
                s.memory.len() == MEMORY_SIZE,
                i == s.i,
                i + x + 1 <= MEMORY_SIZE,
                bytes@ == s.memory.subrange(i as int, i + x + 1),
                self@ == (MachineState { v: self@.v, ..s }),
                self@.v.len() == 16,
                forall|j: int|
                    0 <= j < 16 ==> self@.v[j] == (if j < k {
                        s.memory[i + j]
                    } else {
                        s.v[j]
                    }),
            decreases x + 1 - k,
        {
            self.registers.set(k, bytes[k as usize]);
            k += 1;
        }
        assert(self@.v =~= registers_loaded(s.v, s.memory, s.i as int, x as int));
        assert(self@ =~= executed(s, Instruction::LoadRegisters { x }, 0, 0).0);
        Ok(())
    }
}


/// Executing 6XKK sets Vx to KK and nothing fails.
pub proof fn lemma_load_immediate(s: MachineState, x: u8, kk: u8, keys: u16, random: u8)
    requires
        s.wf(),
        x < 16,
    ensures
        executed(s, decoded((0x60 + x) as u8, kk), keys, random).0.v[x as int] == kk,
        executed(s, decoded((0x60 + x) as u8, kk), keys, random).1 == Ok::<(), Fault>(()),
{
    reveal(executed_move);
    assert(decoded((0x60 + x) as u8, kk) == Instruction::LoadImmediate { x, kk });
}

/// Executing 8XY4 with Vx = a and Vy = b (X not F) sets VF to 1 exactly when
/// a + b passes 255, and Vx to a + b capped at 255.
pub proof fn lemma_add_with_carry(s: MachineState, x: u8, y: u8, keys: u16, random: u8)
    requires
        s.wf(),
        x < 15,
        y < 16,
    ensures
        ({
            let (a, b) = (s.v[x as int], s.v[y as int]);
            let t = executed(s, decoded((0x80 + x) as u8, (y * 16 + 4) as u8), keys, random).0;
            &&& t.v[15] == (if a + b > 255 {
                1u8
            } else {
                0u8
            })
            &&& t.v[x as int] == (if a + b > 255 {
                255
            } else {
                a + b
            })
        }),
{
    reveal(executed_flag);
    assert(decoded((0x80 + x) as u8, (y * 16 + 4) as u8) == Instruction::Add { x, y });
}

/// Executing 8XY5 with Vx = a and Vy = b (X not F) sets VF to 1 exactly when
/// a > b, and Vx to a - b, or 0 when b is larger.
pub proof fn lemma_sub_with_borrow(s: MachineState, x: u8, y: u8, keys: u16, random: u8)
    requires
        s.wf(),
        x < 15,
        y < 16,
    ensures
        ({
            let (a, b) = (s.v[x as int], s.v[y as int]);
            let t = executed(s, decoded((0x80 + x) as u8, (y * 16 + 5) as u8), keys, random).0;
            &&& t.v[15] == (if a > b {
                1u8
            } else {
                0u8
            })
            &&& t.v[x as int] == (if a > b {
                a - b
            } else {
                0
            })
        }),
{
    reveal(executed_flag);
    assert(decoded((0x80 + x) as u8, (y * 16 + 5) as u8) == Instruction::Sub { x, y });
}

/// Executing a well-formed instruction keeps the machine's shape: 4096 bytes of
/// memory, sixteen registers, a 12-bit index, at most sixteen return addresses
/// and 32 display rows.
pub proof fn lemma_execute_keeps_shape(s: MachineState, ins: Instruction, keys: u16, random: u8)
    requires
        s.wf(),
        ins.wf(),
    ensures
        executed(s, ins, keys, random).0.wf(),
{
    reveal(executed_flow);
    reveal(executed_skip);
    reveal(executed_move);
    reveal(executed_flag);
    reveal(executed_index_timer);
    reveal(executed_draw);
    reveal(executed_memory);
    match ins {
        Instruction::Draw { x, y, n } => {
            if s.i + n <= MEMORY_SIZE {
                let sprite = s.memory.subrange(s.i as int, s.i + n);
                assert(drawn(s.display, (s.v[x as int] % 64) as u64, (s.v[y as int] % 32) as int, sprite).len() == 32);
            }
        },
        _ => {},
    }
}

/// A step keeps the machine's shape.
pub proof fn lemma_step_keeps_shape(s: MachineState, keys: u16, random: u8)
    requires
        s.wf(),
    ensures
        stepped(s, keys, random).0.wf(),
{
    if s.fault is None && s.pc + 1 < MEMORY_SIZE {
        let ins = decoded(s.memory[s.pc as int], s.memory[s.pc + 1]);
        crate::instruction::lemma_decoded_wf(s.memory[s.pc as int], s.memory[s.pc + 1]);
        lemma_execute_keeps_shape(s.set_pc(advance(s.pc)), ins, keys, random);
    }
}

} // verus!
