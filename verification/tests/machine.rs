use chip8_core::machine::{FONT, MEMORY_SIZE, SCREEN_SIZE, START_ADDRESS};
use chip8_core::{Chip8Error, Emulator};

fn loaded(program: &[u8]) -> Emulator {
    let mut emulator = Emulator::new();
    emulator.load_program(program).unwrap();
    emulator
}

fn assert_startup_state(emulator: &Emulator) {
    assert_eq!(emulator.get_pc(), 0x200);
    assert_eq!(emulator.get_index(), 0);
    assert_eq!(emulator.get_registers(), &[0u8; 16]);
    assert_eq!(emulator.get_keys(), &[false; 16]);
    assert_eq!(emulator.stack_depth(), 0);
    assert_eq!(emulator.get_delay_timer(), 0);
    assert_eq!(emulator.get_sound_timer(), 0);
    assert!(emulator.get_framebuffer().iter().all(|pixel| !pixel));
    let memory = emulator.get_memory();
    assert_eq!(&memory[..80], &FONT[..]);
    assert!(memory[80..].iter().all(|byte| *byte == 0));
}

#[test]
fn new_machine_is_in_startup_state() {
    let emulator = Emulator::new();
    assert_startup_state(&emulator);
}

#[test]
fn startup_constants() {
    assert_eq!(START_ADDRESS, 0x200);
    assert_eq!(MEMORY_SIZE, 4096);
    assert_eq!(SCREEN_SIZE, 64 * 32);
    assert_eq!(chip8_core::SCREEN_WIDTH, 64);
    assert_eq!(chip8_core::SCREEN_HEIGHT, 32);
}

#[test]
fn font_glyphs_sit_at_five_times_the_digit() {
    let emulator = Emulator::new();
    let memory = emulator.get_memory();
    assert_eq!(&memory[0..5], &[0xF0, 0x90, 0x90, 0x90, 0xF0]);
    assert_eq!(&memory[5..10], &[0x20, 0x60, 0x20, 0x20, 0x70]);
    assert_eq!(&memory[50..55], &[0xF0, 0x90, 0xF0, 0x90, 0x90]);
    assert_eq!(&memory[75..80], &[0xF0, 0x80, 0xF0, 0x80, 0x80]);
}

#[test]
fn reset_restores_startup_state() {
    // V3 := 9; delay := V3; sound := V3; I := 0x123; call 0x20A; draw glyph.
    let mut emulator = loaded(&[
        0x63, 0x09, 0xF3, 0x15, 0xF3, 0x18, 0xA0, 0x00, 0x22, 0x0A, 0xD0, 0x05,
    ]);
    for _ in 0..6 {
        emulator.tick_with(0).unwrap();
    }
    emulator.set_key(4, true).unwrap();
    assert_eq!(emulator.get_sound_timer(), 9);
    assert_eq!(emulator.stack_depth(), 1);
    assert!(emulator.get_framebuffer()[0]);
    emulator.reset();
    assert_startup_state(&emulator);
}

#[test]
fn load_program_copies_bytes_from_start_address() {
    let emulator = loaded(&[0x12, 0x34, 0x56]);
    let memory = emulator.get_memory();
    assert_eq!(&memory[0x200..0x203], &[0x12, 0x34, 0x56]);
    assert_eq!(memory[0x1FF], 0);
    assert_eq!(memory[0x203], 0);
    assert_eq!(&memory[..80], &FONT[..]);
    assert_eq!(emulator.get_pc(), 0x200);
}

#[test]
fn load_program_overwrites_only_its_own_range() {
    let mut emulator = loaded(&[1, 2, 3, 4]);
    emulator.load_program(&[9, 8]).unwrap();
    assert_eq!(&emulator.get_memory()[0x200..0x204], &[9, 8, 3, 4]);
}

#[test]
fn load_program_that_fills_memory_fits() {
    let program = vec![0xAB; 4096 - 0x200];
    let mut emulator = Emulator::new();
    assert_eq!(emulator.load_program(&program), Ok(()));
    assert_eq!(emulator.get_memory()[0x200], 0xAB);
    assert_eq!(emulator.get_memory()[4095], 0xAB);
}

#[test]
fn load_program_one_byte_too_long_is_refused() {
    let program = vec![0xAB; 4096 - 0x200 + 1];
    let mut emulator = Emulator::new();
    assert_eq!(emulator.load_program(&program), Err(Chip8Error::MemoryOutOfBounds));
    assert_startup_state(&emulator);
}

#[test]
fn load_empty_program_changes_nothing() {
    let mut emulator = Emulator::new();
    assert_eq!(emulator.load_program(&[]), Ok(()));
    assert_startup_state(&emulator);
}

#[test]
fn push_then_pop_returns_the_value() {
    let mut emulator = Emulator::new();
    assert_eq!(emulator.push(0x0ABC), Ok(()));
    assert_eq!(emulator.stack_depth(), 1);
    assert_eq!(emulator.pop(), Ok(0x0ABC));
    assert_eq!(emulator.stack_depth(), 0);
}

#[test]
fn pop_returns_last_pushed_first() {
    let mut emulator = Emulator::new();
    emulator.push(1).unwrap();
    emulator.push(2).unwrap();
    emulator.push(3).unwrap();
    assert_eq!(emulator.pop(), Ok(3));
    assert_eq!(emulator.pop(), Ok(2));
    emulator.push(7).unwrap();
    assert_eq!(emulator.pop(), Ok(7));
    assert_eq!(emulator.pop(), Ok(1));
}

#[test]
fn pop_on_empty_stack_underflows() {
    let mut emulator = Emulator::new();
    assert_eq!(emulator.pop(), Err(Chip8Error::StackUnderflow));
    assert_eq!(emulator.stack_depth(), 0);
}

#[test]
fn seventeenth_push_overflows() {
    let mut emulator = Emulator::new();
    for i in 0..16u16 {
        assert_eq!(emulator.push(i), Ok(()));
    }
    assert_eq!(emulator.stack_depth(), 16);
    assert_eq!(emulator.push(99), Err(Chip8Error::StackOverflow));
    assert_eq!(emulator.stack_depth(), 16);
    assert_eq!(emulator.pop(), Ok(15));
}

#[test]
fn set_key_latches_and_releases() {
    let mut emulator = Emulator::new();
    assert_eq!(emulator.set_key(0xF, true), Ok(()));
    assert_eq!(emulator.set_key(0, true), Ok(()));
    let mut expected = [false; 16];
    expected[0] = true;
    expected[15] = true;
    assert_eq!(emulator.get_keys(), &expected);
    assert_eq!(emulator.set_key(0xF, false), Ok(()));
    expected[15] = false;
    assert_eq!(emulator.get_keys(), &expected);
}

#[test]
fn set_key_beyond_the_keypad_is_refused() {
    let mut emulator = Emulator::new();
    assert_eq!(emulator.set_key(16, true), Err(Chip8Error::KeyOutOfRange));
    assert_eq!(emulator.get_keys(), &[false; 16]);
}

#[test]
fn tick_timers_five_times_from_three_stops_at_zero() {
    // V0 := 3; delay := V0.
    let mut emulator = loaded(&[0x60, 0x03, 0xF0, 0x15]);
    emulator.tick_with(0).unwrap();
    emulator.tick_with(0).unwrap();
    assert_eq!(emulator.get_delay_timer(), 3);
    let mut seen = Vec::new();
    for _ in 0..5 {
        emulator.tick_timers();
        seen.push(emulator.get_delay_timer());
    }
    assert_eq!(seen, vec![2, 1, 0, 0, 0]);
}

#[test]
fn tick_timers_counts_both_timers_independently() {
    // V0 := 2; V1 := 1; delay := V0; sound := V1.
    let mut emulator = loaded(&[0x60, 0x02, 0x61, 0x01, 0xF0, 0x15, 0xF1, 0x18]);
    for _ in 0..4 {
        emulator.tick_with(0).unwrap();
    }
    assert_eq!((emulator.get_delay_timer(), emulator.get_sound_timer()), (2, 1));
    emulator.tick_timers();
    assert_eq!((emulator.get_delay_timer(), emulator.get_sound_timer()), (1, 0));
    emulator.tick_timers();
    assert_eq!((emulator.get_delay_timer(), emulator.get_sound_timer()), (0, 0));
    emulator.tick_timers();
    assert_eq!((emulator.get_delay_timer(), emulator.get_sound_timer()), (0, 0));
}

#[test]
fn tick_timers_touches_nothing_else() {
    let mut emulator = loaded(&[0x60, 0xFF, 0xF0, 0x15, 0xA1, 0x23]);
    for _ in 0..3 {
        emulator.tick_with(0).unwrap();
    }
    emulator.tick_timers();
    assert_eq!(emulator.get_delay_timer(), 0xFE);
    assert_eq!(emulator.get_pc(), 0x206);
    assert_eq!(emulator.get_index(), 0x123);
    assert_eq!(emulator.get_registers()[0], 0xFF);
}

#[test]
fn instructions_do_not_move_the_timers() {
    let mut emulator = loaded(&[0x60, 0x05, 0xF0, 0x15, 0x00, 0x00, 0x00, 0x00]);
    for _ in 0..4 {
        emulator.tick_with(0).unwrap();
    }
    assert_eq!(emulator.get_delay_timer(), 5);
}
