use chip8::error::LoadError;
use chip8::machine::{CHIP8, FONT};

#[test]
fn new_machine_is_blank() {
    let vm = CHIP8::new();
    assert_eq!(vm.pc(), 0);
    assert_eq!(vm.index(), 0);
    assert_eq!(vm.delay_timer(), 0);
    assert_eq!(vm.sound_timer(), 0);
    assert_eq!(vm.stack_depth(), 0);
    assert_eq!(vm.waiting(), None);
    for x in 0..16 {
        assert_eq!(vm.register(x), 0);
        assert!(!vm.key(x));
    }
    for addr in 0..4096 {
        assert_eq!(vm.memory(addr), 0);
    }
    for y in 0..32 {
        for x in 0..64 {
            assert!(!vm.pixel(x, y));
        }
    }
}

#[test]
fn init_loads_the_font() {
    let mut vm = CHIP8::new();
    vm.init();
    for addr in 0..80 {
        assert_eq!(vm.memory(addr), FONT[addr]);
    }
    for addr in 80..4096 {
        assert_eq!(vm.memory(addr), 0);
    }
    assert_eq!(vm.memory(0), 0xF0);
    assert_eq!(vm.memory(4), 0xF0);
    assert_eq!(vm.memory(5), 0x20);
    assert_eq!(vm.memory(75), 0xF0);
    assert_eq!(vm.memory(79), 0x80);
    assert_eq!(vm.pc(), 0);
}

#[test]
fn init_after_load_keeps_the_program() {
    let mut vm = CHIP8::new();
    assert_eq!(vm.lrom(&[0x1234], 0x200), Ok(()));
    vm.init();
    assert_eq!(vm.memory(0x200), 0x12);
    assert_eq!(vm.memory(0x201), 0x34);
    assert_eq!(vm.memory(0), 0xF0);
}

#[test]
fn lrom_stores_words_high_byte_first() {
    let mut vm = CHIP8::new();
    vm.init();
    assert_eq!(vm.lrom(&[0x6A05, 0x00E0, 0xFFEE], 0x200), Ok(()));
    let expected = [0x6A, 0x05, 0x00, 0xE0, 0xFF, 0xEE, 0x00];
    for (k, byte) in expected.iter().enumerate() {
        assert_eq!(vm.memory(0x200 + k), *byte);
    }
    assert_eq!(vm.memory(0x1FF), 0);
    assert_eq!(vm.pc(), 0);
}

#[test]
fn lrom_at_another_offset() {
    let mut vm = CHIP8::new();
    assert_eq!(vm.lrom(&[0xABCD], 0x601), Ok(()));
    assert_eq!(vm.memory(0x600), 0);
    assert_eq!(vm.memory(0x601), 0xAB);
    assert_eq!(vm.memory(0x602), 0xCD);
    assert_eq!(vm.memory(0x603), 0);
}

#[test]
fn lrom_fills_memory_to_the_last_byte() {
    let mut vm = CHIP8::new();
    let words = vec![0x1122u16; (4096 - 0x200) / 2];
    assert_eq!(vm.lrom(&words, 0x200), Ok(()));
    assert_eq!(vm.memory(0x200), 0x11);
    assert_eq!(vm.memory(4094), 0x11);
    assert_eq!(vm.memory(4095), 0x22);
    assert_eq!(vm.memory(0x1FF), 0);
}

#[test]
fn lrom_refuses_an_image_that_is_too_large() {
    let mut vm = CHIP8::new();
    let words = vec![0x1122u16; (4096 - 0x200) / 2 + 1];
    assert_eq!(vm.lrom(&words, 0x200), Err(LoadError::TooLarge));
    assert_eq!(vm.lrom(&[0x1122], 4095), Err(LoadError::TooLarge));
    assert_eq!(vm.lrom(&[0x1122], 4096), Err(LoadError::TooLarge));
    assert_eq!(vm.lrom(&[], 4097), Err(LoadError::TooLarge));
    assert_eq!(vm.lrom(&[0x1122], usize::MAX), Err(LoadError::TooLarge));
    for addr in 0x200..4096 {
        assert_eq!(vm.memory(addr), 0);
    }
}

#[test]
fn lrom_refuses_the_reserved_area() {
    let mut vm = CHIP8::new();
    vm.init();
    assert_eq!(vm.lrom(&[0x1122], 0), Err(LoadError::ReservedArea));
    assert_eq!(vm.lrom(&[0x1122], 0x1FF), Err(LoadError::ReservedArea));
    assert_eq!(vm.lrom(&[], 0x1FF), Err(LoadError::ReservedArea));
    assert_eq!(vm.memory(0), 0xF0);
    assert_eq!(vm.memory(0x1FF), 0);
    assert_eq!(vm.memory(0x200), 0);
}

#[test]
fn lrom_of_nothing_changes_nothing() {
    let mut vm = CHIP8::new();
    assert_eq!(vm.lrom(&[], 0x200), Ok(()));
    assert_eq!(vm.lrom(&[], 4096), Ok(()));
    for addr in 0..4096 {
        assert_eq!(vm.memory(addr), 0);
    }
}

#[test]
fn set_pc_moves_only_the_program_counter() {
    let mut vm = CHIP8::new();
    vm.set_pc(0x200);
    assert_eq!(vm.pc(), 0x200);
    assert_eq!(vm.index(), 0);
    assert_eq!(vm.stack_depth(), 0);
    vm.set_pc(0xFFFF);
    assert_eq!(vm.pc(), 0xFFFF);
}
