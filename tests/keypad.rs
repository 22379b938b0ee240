use chip8::keypad::Keypad;
use chip8::timers::TimerPair;

#[test]
fn keys_go_down_and_up() {
    let mut k = Keypad::new();
    assert_eq!(k.poll_pressed(), None);
    k.set_key(9, true);
    k.set_key(4, true);
    assert!(k.is_pressed(9));
    assert!(!k.is_pressed(3));
    assert!(!k.is_pressed(200));
    assert_eq!(k.poll_pressed(), Some(4));
    k.set_key(4, false);
    assert_eq!(k.poll_pressed(), Some(9));
    assert_eq!(Keypad::from_mask(0x8000).poll_pressed(), Some(15));
}

#[test]
fn timers_count_down_to_zero() {
    let mut t = TimerPair::new();
    t.set_delay(2);
    t.set_sound(1);
    t.tick();
    assert_eq!((t.delay(), t.sound()), (1, 0));
    t.tick();
    t.tick();
    assert_eq!((t.delay(), t.sound()), (0, 0));
}
