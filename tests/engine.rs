use chip8::engine::Engine;
use chip8::fault::Fault;
use chip8::instruction::Instruction;
use chip8::keypad::Keypad;

fn loaded(program: &[u8]) -> Engine {
    let mut e = Engine::new();
    assert_eq!(e.load_program(program), Ok(()));
    e
}

fn run(e: &mut Engine, steps: usize) {
    let keys = Keypad::new();
    for _ in 0..steps {
        assert_eq!(e.step_with(&keys, 0), Ok(()));
    }
}

#[test]
fn end_to_end_three_instructions() {
    let mut e = loaded(&[0xA2, 0x02, 0x60, 0x0C, 0x00, 0xE0]);
    run(&mut e, 3);
    assert_eq!(e.index(), 0x202);
    assert_eq!(e.register(0), 0x0C);
    assert_eq!(e.display().rows(), [0u64; 32]);
    assert_eq!(e.pc(), 0x206);
}

#[test]
fn load_immediate_sets_the_register() {
    for x in 0..16u8 {
        let mut e = loaded(&[0x60 | x, 0x5A]);
        run(&mut e, 1);
        assert_eq!(e.register(x), 0x5A);
    }
}

#[test]
fn add_sets_carry_and_saturates() {
    // V1 = 200, V2 = 100, V1 += V2
    let mut e = loaded(&[0x61, 200, 0x62, 100, 0x81, 0x24]);
    run(&mut e, 3);
    assert_eq!(e.register(1), 255);
    assert_eq!(e.register(0xF), 1);
    let mut e = loaded(&[0x61, 100, 0x62, 155, 0x81, 0x24]);
    run(&mut e, 3);
    assert_eq!(e.register(1), 255);
    assert_eq!(e.register(0xF), 0);
    let mut e = loaded(&[0x61, 1, 0x62, 2, 0x81, 0x24]);
    run(&mut e, 3);
    assert_eq!(e.register(1), 3);
    assert_eq!(e.register(0xF), 0);
}

#[test]
fn sub_sets_no_borrow_and_saturates() {
    let mut e = loaded(&[0x61, 10, 0x62, 3, 0x81, 0x25]);
    run(&mut e, 3);
    assert_eq!((e.register(1), e.register(0xF)), (7, 1));
    let mut e = loaded(&[0x61, 3, 0x62, 10, 0x81, 0x25]);
    run(&mut e, 3);
    assert_eq!((e.register(1), e.register(0xF)), (0, 0));
    let mut e = loaded(&[0x61, 5, 0x62, 5, 0x81, 0x25]);
    run(&mut e, 3);
    assert_eq!((e.register(1), e.register(0xF)), (0, 0));
}

#[test]
fn reverse_sub_and_shifts() {
    let mut e = loaded(&[0x61, 3, 0x62, 10, 0x81, 0x27]);
    run(&mut e, 3);
    assert_eq!((e.register(1), e.register(0xF)), (7, 1));
    let mut e = loaded(&[0x61, 5, 0x62, 5, 0x81, 0x27]);
    run(&mut e, 3);
    assert_eq!((e.register(1), e.register(0xF)), (0, 0));
    let mut e = loaded(&[0x61, 0b1000_0011, 0x81, 0x06]);
    run(&mut e, 2);
    assert_eq!((e.register(1), e.register(0xF)), (0b0100_0001, 1));
    let mut e = loaded(&[0x61, 0b1000_0011, 0x81, 0x0E]);
    run(&mut e, 2);
    assert_eq!((e.register(1), e.register(0xF)), (0b0000_0110, 1));
}

#[test]
fn bitwise_ops_and_saturating_add_immediate() {
    let mut e = loaded(&[0x61, 0b1100, 0x62, 0b1010, 0x83, 0x10, 0x83, 0x21, 0x84, 0x10, 0x84, 0x22, 0x85, 0x10, 0x85, 0x23]);
    run(&mut e, 8);
    assert_eq!(e.register(3), 0b1110);
    assert_eq!(e.register(4), 0b1000);
    assert_eq!(e.register(5), 0b0110);
    let mut e = loaded(&[0x61, 250, 0x71, 10]);
    run(&mut e, 2);
    assert_eq!(e.register(1), 255);
    assert_eq!(e.register(0xF), 0);
}

#[test]
fn skips_jump_and_call() {
    // 200: V1 = 7; 202: skip if V1 == 7; 204: V2 = 1 (skipped); 206: V3 = 1
    let mut e = loaded(&[0x61, 7, 0x31, 7, 0x62, 1, 0x63, 1]);
    run(&mut e, 3);
    assert_eq!((e.register(2), e.register(3)), (0, 1));
    // 200: call 206; 202: V1 = 9; 204: jump 204; 206: return
    let mut e = loaded(&[0x22, 0x06, 0x61, 9, 0x12, 0x04, 0x00, 0xEE]);
    run(&mut e, 1);
    assert_eq!((e.pc(), e.stack_depth()), (0x206, 1));
    run(&mut e, 2);
    assert_eq!((e.pc(), e.register(1), e.stack_depth()), (0x204, 9, 0));
    run(&mut e, 1);
    assert_eq!(e.pc(), 0x204);
    // B300 with V0 = 4 jumps to 0x304
    let mut e = loaded(&[0x60, 4, 0xB3, 0x00]);
    run(&mut e, 2);
    assert_eq!(e.pc(), 0x304);
}

#[test]
fn draw_sets_collision_flag() {
    // I = font glyph of V1 = 0, draw it twice at (V2, V2) = (0, 0)
    let mut e = loaded(&[0xF1, 0x29, 0xD2, 0x25, 0xD2, 0x25]);
    run(&mut e, 2);
    assert_eq!(e.register(0xF), 0);
    assert_eq!(e.display().row(0), 0xF0u64 << 56);
    assert_eq!(e.display().row(1), 0x90u64 << 56);
    run(&mut e, 1);
    assert_eq!(e.register(0xF), 1);
    assert_eq!(e.display().rows(), [0u64; 32]);
}

#[test]
fn font_glyph_address_of_digit() {
    let mut e = loaded(&[0x61, 0x0A, 0xF1, 0x29]);
    run(&mut e, 2);
    assert_eq!(e.index(), 50);
}

#[test]
fn bcd_store_and_load_registers() {
    // V1 = 254; I = 0x300; BCD of V1; V0..V2 <- mem[0x300..]
    let mut e = loaded(&[0x61, 254, 0xA3, 0x00, 0xF1, 0x33, 0xF2, 0x65]);
    run(&mut e, 4);
    assert_eq!(e.memory().read(0x300), Ok(2));
    assert_eq!(e.memory().read(0x301), Ok(5));
    assert_eq!(e.memory().read(0x302), Ok(4));
    assert_eq!((e.register(0), e.register(1), e.register(2)), (2, 5, 4));
    assert_eq!(e.index(), 0x300);
    // V0 = 1, V1 = 2; I = 0x400; store V0..V1
    let mut e = loaded(&[0x60, 1, 0x61, 2, 0xA4, 0x00, 0xF1, 0x55]);
    run(&mut e, 4);
    assert_eq!(e.memory().read(0x400), Ok(1));
    assert_eq!(e.memory().read(0x401), Ok(2));
    assert_eq!(e.memory().read(0x402), Ok(0));
}

#[test]
fn index_add_keeps_twelve_bits() {
    // I = 0xFFF; V1 = 2; I += V1
    let mut e = loaded(&[0xAF, 0xFF, 0x61, 2, 0xF1, 0x1E]);
    run(&mut e, 3);
    assert_eq!(e.index(), 1);
}

#[test]
fn timers_follow_registers() {
    let mut e = loaded(&[0x61, 3, 0xF1, 0x15, 0xF1, 0x18, 0xF2, 0x07]);
    run(&mut e, 3);
    assert_eq!((e.delay_timer(), e.sound_timer()), (3, 3));
    e.tick_timers();
    run(&mut e, 1);
    assert_eq!(e.register(2), 2);
    for _ in 0..5 {
        e.tick_timers();
    }
    assert_eq!((e.delay_timer(), e.sound_timer()), (0, 0));
}

#[test]
fn wait_key_retries_until_a_key_is_down() {
    let mut e = loaded(&[0xF3, 0x0A]);
    run(&mut e, 2);
    assert_eq!(e.pc(), 0x200);
    let mut keys = Keypad::new();
    keys.set_key(0xB, true);
    assert_eq!(e.step_with(&keys, 0), Ok(()));
    assert_eq!((e.pc(), e.register(3)), (0x202, 0xB));
}

#[test]
fn key_skips_read_the_keypad() {
    let mut keys = Keypad::new();
    keys.set_key(5, true);
    let mut e = loaded(&[0x61, 5, 0xE1, 0x9E, 0x62, 1, 0xE1, 0xA1, 0x63, 1]);
    for _ in 0..4 {
        assert_eq!(e.step_with(&keys, 0), Ok(()));
    }
    assert_eq!((e.register(2), e.register(3)), (0, 1));
}

#[test]
fn random_byte_is_masked() {
    let mut e = loaded(&[0xC1, 0x0F, 0xC2, 0x0F]);
    assert_eq!(e.step_with(&Keypad::new(), 0xAB), Ok(()));
    assert_eq!(e.register(1), 0x0B);
    assert_eq!(e.step(&Keypad::new()), Ok(()));
    assert!(e.register(2) <= 0x0F);
}

#[test]
fn invalid_instruction_is_reported_and_skipped() {
    let mut e = loaded(&[0x00, 0x00, 0x61, 1]);
    assert_eq!(e.step_with(&Keypad::new(), 0), Err(Fault::InvalidInstruction(0)));
    assert_eq!(e.fault(), None);
    run(&mut e, 1);
    assert_eq!(e.register(1), 1);
}

#[test]
fn stack_underflow_halts() {
    let mut e = loaded(&[0x00, 0xEE, 0x61, 1]);
    assert_eq!(e.step_with(&Keypad::new(), 0), Err(Fault::StackUnderflow));
    assert_eq!(e.fault(), Some(Fault::StackUnderflow));
    assert_eq!(e.step_with(&Keypad::new(), 0), Err(Fault::StackUnderflow));
    assert_eq!(e.register(1), 0);
}

#[test]
fn stack_overflow_halts() {
    // 200: call 200, forever
    let mut e = loaded(&[0x22, 0x00]);
    run(&mut e, 16);
    assert_eq!(e.stack_depth(), 16);
    assert_eq!(e.step_with(&Keypad::new(), 0), Err(Fault::StackOverflow));
    assert_eq!(e.stack_depth(), 16);
    assert_eq!(e.fault(), Some(Fault::StackOverflow));
}

#[test]
fn out_of_range_access_halts() {
    // I = 0xFFE; draw 3 bytes
    let mut e = loaded(&[0xAF, 0xFE, 0xD0, 0x03]);
    run(&mut e, 1);
    assert_eq!(e.step_with(&Keypad::new(), 0), Err(Fault::AddressOutOfRange(0xFFE)));
    assert_eq!(e.fault(), Some(Fault::AddressOutOfRange(0xFFE)));
    // jump to 0xFFF; the fetch would read past the end
    let mut e = loaded(&[0x1F, 0xFF]);
    run(&mut e, 1);
    assert_eq!(e.step_with(&Keypad::new(), 0), Err(Fault::AddressOutOfRange(0xFFF)));
}

#[test]
fn program_counter_wraps_at_the_end_of_memory() {
    let mut program = vec![0u8; 3584];
    program[3582] = 0x61;
    program[3583] = 0x07;
    let mut e = loaded(&program);
    assert_eq!(e.execute(Instruction::Jump { addr: 0xFFE }, &Keypad::new(), 0), Ok(()));
    run(&mut e, 1);
    assert_eq!((e.register(1), e.pc()), (7, 0));
}

#[test]
fn oversized_program_is_refused() {
    let mut e = Engine::new();
    assert_eq!(e.load_program(&vec![1u8; 3585]), Err(Fault::ProgramTooLarge));
    assert_eq!(e.load_program(&vec![1u8; 3584]), Ok(()));
}
