use chip8::display::{draw_row, xor, DisplayBuffer};

#[test]
fn xor_reports_erased_pixels() {
    assert_eq!(xor(0b1100, 0b0110), (0b1010, true));
    assert_eq!(xor(0b1000, 0b0110), (0b1110, false));
    assert_eq!(xor(0, 0), (0, false));
}

#[test]
fn byte_at_column_zero_fills_the_leftmost_columns() {
    assert_eq!(draw_row(0, 0, 0xFF), (0xFF00_0000_0000_0000, false));
    assert_eq!(draw_row(0, 56, 0xA5), (0xA5, false));
}

#[test]
fn byte_at_column_sixty_wraps_round() {
    // high nibble 1011 at columns 60..63, low nibble 0110 at columns 0..3
    let (row, hit) = draw_row(0, 60, 0b1011_0110);
    assert!(!hit);
    assert_eq!(row, 0b1011 | (0b0110u64 << 60));
    let mut d = DisplayBuffer::new();
    d.draw_sprite(60, 0, &[0b1011_0110]);
    let expected = [true, false, true, true];
    for j in 0..4u8 {
        assert_eq!(d.is_pixel_on(60 + j, 0), expected[j as usize]);
    }
    let expected_low = [false, true, true, false];
    for j in 0..4u8 {
        assert_eq!(d.is_pixel_on(j, 0), expected_low[j as usize]);
    }
    for c in 4..60u8 {
        assert!(!d.is_pixel_on(c, 0));
    }
}

#[test]
fn wrapped_draw_detects_collision_on_either_part() {
    assert_eq!(draw_row(1, 60, 0x10), (0, true));
    assert_eq!(draw_row(1u64 << 63, 60, 0x08), (0, true));
    assert_eq!(draw_row(1u64 << 63, 60, 0x80), ((1u64 << 63) | 0x8, false));
}

#[test]
fn drawing_twice_restores_the_screen() {
    let mut d = DisplayBuffer::new();
    d.draw_sprite(10, 5, &[0x3C, 0x42]);
    let before = d.rows();
    let sprite = [0xF0u8, 0x90, 0xF0];
    let first = d.draw_sprite(10, 6, &sprite);
    assert!(first);
    let second = d.draw_sprite(10, 6, &sprite);
    assert!(second);
    assert_eq!(d.rows(), before);
}

#[test]
fn second_draw_collides_only_where_the_first_lit_a_pixel() {
    let mut d = DisplayBuffer::new();
    let sprite = [0x80u8];
    assert!(!d.draw_sprite(0, 0, &sprite));
    assert!(d.draw_sprite(0, 0, &sprite));
    assert_eq!(d.row(0), 0);
    let empty: [u8; 1] = [0];
    assert!(!d.draw_sprite(0, 0, &empty));
    assert!(!d.draw_sprite(0, 0, &empty));
}

#[test]
fn rows_past_the_bottom_wrap_to_the_top() {
    let mut d = DisplayBuffer::new();
    d.draw_sprite(0, 31, &[0x80, 0x40]);
    assert!(d.is_pixel_on(0, 31));
    assert!(d.is_pixel_on(1, 0));
    assert_eq!(d.row(0), 1u64 << 62);
}

#[test]
fn coordinates_wrap_before_drawing() {
    let mut d = DisplayBuffer::new();
    d.draw_sprite(64 + 3, 32 + 2, &[0x80]);
    assert!(d.is_pixel_on(3, 2));
}

#[test]
fn clear_turns_every_pixel_off() {
    let mut d = DisplayBuffer::new();
    d.draw_sprite(0, 0, &[0xFF; 15]);
    d.clear();
    assert_eq!(d.rows(), [0u64; 32]);
}
