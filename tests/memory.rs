use chip8::fault::Fault;
use chip8::memory::Memory;

#[test]
fn program_of_exactly_3584_bytes_loads() {
    let mut m = Memory::new();
    let program = vec![0xABu8; 3584];
    assert_eq!(m.load_program(&program), Ok(()));
    assert_eq!(m.read(0x200), Ok(0xAB));
    assert_eq!(m.read(4095), Ok(0xAB));
}

#[test]
fn program_of_3585_bytes_is_too_large() {
    let mut m = Memory::new();
    let program = vec![0xABu8; 3585];
    assert_eq!(m.load_program(&program), Err(Fault::ProgramTooLarge));
    assert_eq!(m.read(0x200), Ok(0));
}

#[test]
fn font_table_sits_at_address_zero() {
    let m = Memory::new();
    assert_eq!(m.read(0), Ok(0xF0));
    assert_eq!(m.read(5), Ok(0x20));
    assert_eq!(m.read(79), Ok(0x80));
    assert_eq!(m.read(80), Ok(0));
}

#[test]
fn read_past_the_end_is_out_of_range() {
    let m = Memory::new();
    assert_eq!(m.read(4096), Err(Fault::AddressOutOfRange(4096)));
    assert_eq!(m.read_range(4090, 7), Err(Fault::AddressOutOfRange(4090)));
    assert_eq!(m.read_range(4090, 6).map(|b| b.len()), Ok(6));
}

#[test]
fn empty_program_changes_nothing() {
    let mut m = Memory::new();
    assert_eq!(m.load_program(&[]), Ok(()));
    assert_eq!(m.read(0x200), Ok(0));
}
