use chip8_core::keypad::first_pressed;
use chip8_core::stack::CallStack;
use chip8_core::Chip8Error;

#[test]
fn first_pressed_finds_the_lowest_key() {
    let mut keys = [false; 16];
    assert_eq!(first_pressed(&keys), None);
    keys[15] = true;
    assert_eq!(first_pressed(&keys), Some(15));
    keys[9] = true;
    keys[4] = true;
    assert_eq!(first_pressed(&keys), Some(4));
    keys[0] = true;
    assert_eq!(first_pressed(&keys), Some(0));
}

#[test]
fn call_stack_holds_sixteen_addresses() {
    let mut stack = CallStack::new();
    assert_eq!(stack.len(), 0);
    assert_eq!(stack.pop(), Err(Chip8Error::StackUnderflow));
    for i in 0..16u16 {
        assert_eq!(stack.push(0x200 + i), Ok(()));
    }
    assert_eq!(stack.len(), 16);
    assert_eq!(stack.push(0xFFFF), Err(Chip8Error::StackOverflow));
    for i in (0..16u16).rev() {
        assert_eq!(stack.pop(), Ok(0x200 + i));
    }
    assert_eq!(stack.pop(), Err(Chip8Error::StackUnderflow));
}

#[test]
fn call_stack_clear_empties_it() {
    let mut stack = CallStack::new();
    stack.push(1).unwrap();
    stack.push(2).unwrap();
    stack.clear();
    assert_eq!(stack.len(), 0);
    assert_eq!(stack.pop(), Err(Chip8Error::StackUnderflow));
    assert_eq!(stack.push(3), Ok(()));
    assert_eq!(stack.pop(), Ok(3));
}
