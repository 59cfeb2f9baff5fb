use chip8::decode::Instruction;
use chip8::machine::timers::{timer_due, TIMER_HZ};
use chip8::machine::CHIP8;

fn registers(vm: &CHIP8) -> Vec<u8> {
    (0..16).map(|x| vm.register(x)).collect()
}

#[test]
fn key_events_set_and_clear_flags() {
    let mut vm = CHIP8::new();
    for key in 0..16u8 {
        assert!(!vm.key(key as usize));
        vm.key_down(key);
        assert!(vm.key(key as usize));
    }
    vm.key_up(3);
    for key in 0..16usize {
        assert_eq!(vm.key(key), key != 3);
    }
    assert_eq!(registers(&vm), vec![0; 16]);
    assert_eq!(vm.pc(), 0);
}

#[test]
fn numbers_above_fifteen_are_no_keys() {
    let mut vm = CHIP8::new();
    assert_eq!(vm.execute(Instruction::WaitKey { x: 2 }, 0), Ok(()));
    vm.key_down(16);
    vm.key_down(255);
    vm.key_up(200);
    vm.check_lock(16);
    assert_eq!(vm.waiting(), Some(2));
    for key in 0..16usize {
        assert!(!vm.key(key));
    }
    assert_eq!(vm.register(2), 0);
}

#[test]
fn skip_on_key_state() {
    let mut vm = CHIP8::new();
    vm.set_pc(0x200);
    assert_eq!(vm.execute(Instruction::LoadImm { x: 1, byte: 0xB }, 0), Ok(()));
    assert_eq!(vm.execute(Instruction::SkipKey { x: 1 }, 0), Ok(()));
    assert_eq!(vm.pc(), 0x204);
    assert_eq!(vm.execute(Instruction::SkipNoKey { x: 1 }, 0), Ok(()));
    assert_eq!(vm.pc(), 0x208);
    vm.key_down(0xB);
    assert_eq!(vm.execute(Instruction::SkipKey { x: 1 }, 0), Ok(()));
    assert_eq!(vm.pc(), 0x20C);
    assert_eq!(vm.execute(Instruction::SkipNoKey { x: 1 }, 0), Ok(()));
    assert_eq!(vm.pc(), 0x20E);
}

#[test]
fn skip_on_a_number_that_is_no_key() {
    let mut vm = CHIP8::new();
    for key in 0..16u8 {
        vm.key_down(key);
    }
    vm.set_pc(0x200);
    assert_eq!(vm.execute(Instruction::LoadImm { x: 1, byte: 16 }, 0), Ok(()));
    assert_eq!(vm.execute(Instruction::SkipKey { x: 1 }, 0), Ok(()));
    assert_eq!(vm.pc(), 0x204);
    assert_eq!(vm.execute(Instruction::SkipNoKey { x: 1 }, 0), Ok(()));
    assert_eq!(vm.pc(), 0x208);
}

#[test]
fn key_wait_blocks_until_a_key_goes_down() {
    let mut vm = CHIP8::new();
    vm.init();
    assert_eq!(vm.lrom(&[0x6133, 0xF30A, 0x6455], 0x200), Ok(()));
    vm.set_pc(0x200);
    assert_eq!(vm.step(), Ok(()));
    assert_eq!(vm.step(), Ok(()));
    assert_eq!(vm.waiting(), Some(3));
    assert_eq!(vm.pc(), 0x202);
    let before = registers(&vm);
    for _ in 0..10 {
        assert_eq!(vm.step(), Ok(()));
        assert_eq!(vm.step_with(0x77), Ok(()));
        vm.key_up(5);
        vm.tick_timers();
        assert_eq!(vm.pc(), 0x202);
        assert_eq!(registers(&vm), before);
        assert_eq!(vm.waiting(), Some(3));
    }
    vm.key_down(0xC);
    assert_eq!(vm.waiting(), None);
    assert_eq!(vm.register(3), 0xC);
    assert_eq!(vm.pc(), 0x204);
    assert!(vm.key(0xC));
    vm.key_down(0x1);
    assert_eq!(vm.register(3), 0xC);
    assert_eq!(vm.pc(), 0x204);
    assert_eq!(vm.step(), Ok(()));
    assert_eq!(vm.register(4), 0x55);
    assert_eq!(vm.pc(), 0x206);
}

#[test]
fn key_already_down_does_not_end_a_wait() {
    let mut vm = CHIP8::new();
    vm.key_down(7);
    vm.set_pc(0x300);
    assert_eq!(vm.execute(Instruction::WaitKey { x: 0xE }, 0), Ok(()));
    assert_eq!(vm.waiting(), Some(0xE));
    assert_eq!(vm.pc(), 0x300);
    assert_eq!(vm.step(), Ok(()));
    assert_eq!(vm.waiting(), Some(0xE));
    vm.key_down(7);
    assert_eq!(vm.waiting(), None);
    assert_eq!(vm.register(0xE), 7);
    assert_eq!(vm.pc(), 0x302);
}

#[test]
fn check_lock_without_a_wait_changes_nothing() {
    let mut vm = CHIP8::new();
    vm.set_pc(0x200);
    vm.check_lock(9);
    assert_eq!(vm.pc(), 0x200);
    assert_eq!(registers(&vm), vec![0; 16]);
    assert!(!vm.key(9));
}

#[test]
fn check_lock_fills_the_waiting_register() {
    let mut vm = CHIP8::new();
    vm.set_pc(0x200);
    assert_eq!(vm.execute(Instruction::WaitKey { x: 0 }, 0), Ok(()));
    vm.check_lock(0xF);
    assert_eq!(vm.register(0), 0xF);
    assert_eq!(vm.waiting(), None);
    assert_eq!(vm.pc(), 0x202);
    assert!(!vm.key(0xF));
}

#[test]
fn timers_count_down_to_zero_and_stay() {
    let mut vm = CHIP8::new();
    assert_eq!(vm.execute(Instruction::LoadImm { x: 0, byte: 5 }, 0), Ok(()));
    assert_eq!(vm.execute(Instruction::LoadImm { x: 1, byte: 2 }, 0), Ok(()));
    assert_eq!(vm.execute(Instruction::SetDelay { x: 0 }, 0), Ok(()));
    assert_eq!(vm.execute(Instruction::SetSound { x: 1 }, 0), Ok(()));
    let pc = vm.pc();
    let expected = [(4, 1), (3, 0), (2, 0), (1, 0), (0, 0), (0, 0), (0, 0)];
    for (dt, st) in expected {
        vm.tick_timers();
        assert_eq!(vm.delay_timer(), dt);
        assert_eq!(vm.sound_timer(), st);
    }
    assert_eq!(vm.pc(), pc);
    assert_eq!(vm.register(0), 5);
}

#[test]
fn full_timer_takes_255_ticks() {
    let mut vm = CHIP8::new();
    assert_eq!(vm.execute(Instruction::LoadImm { x: 0, byte: 255 }, 0), Ok(()));
    assert_eq!(vm.execute(Instruction::SetDelay { x: 0 }, 0), Ok(()));
    for _ in 0..254 {
        vm.tick_timers();
    }
    assert_eq!(vm.delay_timer(), 1);
    vm.tick_timers();
    assert_eq!(vm.delay_timer(), 0);
    vm.tick_timers();
    assert_eq!(vm.delay_timer(), 0);
}

#[test]
fn tick_is_due_after_one_period() {
    assert_eq!(TIMER_HZ, 60);
    assert!(!timer_due(0));
    assert!(!timer_due(16));
    assert!(timer_due(17));
    assert!(timer_due(1000));
    assert!(timer_due(u128::MAX));
}
