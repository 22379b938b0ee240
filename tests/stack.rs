use chip8::fault::Fault;
use chip8::stack::CallStack;

#[test]
fn call_stack_sixteen_deep() {
    let mut s = CallStack::new();
    for k in 0..16u16 {
        assert_eq!(s.push(0x200 + 2 * k), Ok(()));
    }
    assert_eq!(s.depth(), 16);
    assert_eq!(s.push(0x300), Err(Fault::StackOverflow));
    assert_eq!(s.depth(), 16);
    for k in (0..16u16).rev() {
        assert_eq!(s.pop(), Ok(0x200 + 2 * k));
    }
    assert_eq!(s.pop(), Err(Fault::StackUnderflow));
    assert_eq!(s.depth(), 0);
}
