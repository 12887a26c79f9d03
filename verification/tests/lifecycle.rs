use chip8::cpu::CPU;
use chip8::error::Chip8Error;

#[test]
fn new_state_is_zero_with_font_installed() {
    let cpu = CPU::new();
    assert_eq!(cpu.pc(), 0x200);
    assert_eq!(cpu.index_reg(), 0);
    assert_eq!(cpu.delay_timer(), 0);
    assert_eq!(cpu.sound_timer(), 0);
    assert_eq!(cpu.stack_depth(), 0);
    for k in 0..16 {
        assert_eq!(cpu.reg(k), 0);
    }
    // first glyph (0), last glyph (F), and the first byte past the table
    assert_eq!(cpu.mem_at(0), 0xF0);
    assert_eq!(cpu.mem_at(4), 0xF0);
    assert_eq!(cpu.mem_at(75), 0xF0);
    assert_eq!(cpu.mem_at(79), 0x80);
    assert_eq!(cpu.mem_at(80), 0);
    assert_eq!(cpu.mem_at(0x200), 0);
    assert_eq!(cpu.mem_at(0xFFF), 0);
}

#[test]
fn reset_restores_the_initial_state() {
    let mut cpu = CPU::new();
    cpu.load_program(&[0x61, 0x05, 0x12, 0x00]).unwrap();
    cpu.execute().unwrap();
    cpu.push_return(0x456).unwrap();
    cpu.reset();
    assert_eq!(cpu.pc(), 0x200);
    assert_eq!(cpu.reg(1), 0);
    assert_eq!(cpu.stack_depth(), 0);
    assert_eq!(cpu.mem_at(0x200), 0);
    assert_eq!(cpu.mem_at(0), 0xF0);
}

#[test]
fn largest_program_loads_up_to_top_of_memory() {
    let mut bytes = vec![0xCDu8; 0xE00];
    bytes[0] = 0xAB;
    let mut cpu = CPU::new();
    assert!(cpu.load_program(&bytes).is_ok());
    assert_eq!(cpu.mem_at(0x200), 0xAB);
    assert_eq!(cpu.mem_at(0x201), 0xCD);
    assert_eq!(cpu.mem_at(0xFFF), 0xCD);
    // the reserved region is untouched
    assert_eq!(cpu.mem_at(0), 0xF0);
    assert_eq!(cpu.mem_at(0x1FF), 0);
}

#[test]
fn oversized_program_is_refused_whole() {
    let bytes = vec![0xCDu8; 0xE01];
    let mut cpu = CPU::new();
    assert_eq!(cpu.load_program(&bytes).unwrap_err(), Chip8Error::ProgramTooLarge);
    assert_eq!(cpu.mem_at(0x200), 0);
    assert_eq!(cpu.mem_at(0xFFF), 0);
    assert_eq!(cpu.pc(), 0x200);
}

#[test]
fn push_and_pop_round_trip() {
    let mut cpu = CPU::new();
    cpu.push_return(0x123).unwrap();
    cpu.push_return(0x456).unwrap();
    assert_eq!(cpu.stack_depth(), 2);
    assert_eq!(cpu.pop_return().unwrap(), 0x456);
    assert_eq!(cpu.pop_return().unwrap(), 0x123);
    assert_eq!(cpu.pop_return().unwrap_err(), Chip8Error::StackUnderflow);
}

#[test]
fn push_beyond_capacity_overflows() {
    let mut cpu = CPU::new();
    for k in 0..16u16 {
        cpu.push_return(0x200 + k).unwrap();
    }
    assert_eq!(cpu.push_return(0x300).unwrap_err(), Chip8Error::StackOverflow);
    assert_eq!(cpu.stack_depth(), 16);
}

#[test]
fn timer_reaches_zero_and_stays_there() {
    // load 5 into register 3, copy it into the delay timer
    let mut cpu = CPU::new();
    cpu.load_program(&[0x63, 0x05, 0xF3, 0x15]).unwrap();
    cpu.execute().unwrap();
    cpu.execute().unwrap();
    assert_eq!(cpu.delay_timer(), 5);
    for expected in [4, 3, 2, 1, 0] {
        cpu.tick_timers();
        assert_eq!(cpu.delay_timer(), expected);
    }
    cpu.tick_timers();
    assert_eq!(cpu.delay_timer(), 0);
}

#[test]
fn sound_timer_counts_down_independently() {
    let mut cpu = CPU::new();
    cpu.load_program(&[0x63, 0x02, 0xF3, 0x18]).unwrap();
    cpu.execute().unwrap();
    cpu.execute().unwrap();
    assert_eq!(cpu.sound_timer(), 2);
    assert_eq!(cpu.delay_timer(), 0);
    cpu.tick_timers();
    assert_eq!(cpu.sound_timer(), 1);
    cpu.tick_timers();
    cpu.tick_timers();
    assert_eq!(cpu.sound_timer(), 0);
    assert_eq!(cpu.delay_timer(), 0);
}

#[test]
fn setting_a_timer_does_not_advance_it() {
    let mut cpu = CPU::new();
    cpu.load_program(&[0x63, 0x05, 0xF3, 0x15, 0x64, 0x01, 0x65, 0x02]).unwrap();
    for _ in 0..4 {
        cpu.execute().unwrap();
    }
    // instructions executed after the timer was set do not decrement it
    assert_eq!(cpu.delay_timer(), 5);
}
