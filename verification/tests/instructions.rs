use chip8::cpu::{Action, CPU};
use chip8::error::Chip8Error;

/// A CPU with the given instruction words loaded as a program, big-endian.
fn boot(words: &[u16]) -> CPU {
    let mut bytes: Vec<u8> = Vec::new();
    for w in words {
        bytes.push((w >> 8) as u8);
        bytes.push((w & 0xFF) as u8);
    }
    let mut cpu = CPU::new();
    cpu.load_program(&bytes).expect("program fits");
    cpu
}

fn step(cpu: &mut CPU) -> Action {
    assert!(cpu.pc() <= 0xFFE, "program counter must stay fetchable");
    cpu.execute().expect("step succeeds")
}

#[test]
fn load_immediate_sets_register() {
    let mut cpu = boot(&[0x61AB]);
    step(&mut cpu);
    assert_eq!(cpu.reg(1), 0xAB);
    assert_eq!(cpu.pc(), 0x202);
}

#[test]
fn load_then_copy_moves_value() {
    let mut cpu = boot(&[0x62AB, 0x8720]);
    step(&mut cpu);
    step(&mut cpu);
    assert_eq!(cpu.reg(7), 0xAB);
}

#[test]
fn add_immediate_wraps_modulo_256() {
    let mut cpu = boot(&[0x61FA, 0x710A]);
    step(&mut cpu);
    assert_eq!(cpu.reg(1), 250);
    let r = cpu.execute();
    assert!(r.is_ok());
    assert_eq!(cpu.reg(1), 4);
}

#[test]
fn add_immediate_plain_sum() {
    let mut cpu = boot(&[0x6105, 0x7103]);
    step(&mut cpu);
    step(&mut cpu);
    assert_eq!(cpu.reg(1), 8);
}

#[test]
fn jump_is_absolute() {
    let mut cpu = boot(&[0x12F0]);
    step(&mut cpu);
    assert_eq!(cpu.pc(), 0x2F0);
}

#[test]
fn jump_with_offset_adds_register_zero() {
    let mut cpu = boot(&[0x6002, 0xB2F0]);
    step(&mut cpu);
    step(&mut cpu);
    assert_eq!(cpu.pc(), 0x2F2);
}

#[test]
fn call_then_return_restores_next_instruction() {
    // call 0x300 from 0x200; a return sits at 0x300
    let mut bytes = vec![0u8; 0x102];
    bytes[0] = 0x23;
    bytes[1] = 0x00;
    bytes[0x100] = 0x00;
    bytes[0x101] = 0xEE;
    let mut cpu = CPU::new();
    cpu.load_program(&bytes).expect("program fits");
    step(&mut cpu);
    assert_eq!(cpu.pc(), 0x300);
    assert_eq!(cpu.stack_depth(), 1);
    step(&mut cpu);
    assert_eq!(cpu.pc(), 0x202);
    assert_eq!(cpu.stack_depth(), 0);
}

#[test]
fn seventeenth_nested_call_overflows() {
    // 17 call instructions, each calling the next address
    let mut words: Vec<u16> = Vec::new();
    for k in 0..17u16 {
        words.push(0x2000 | (0x202 + 2 * k));
    }
    let mut cpu = boot(&words);
    for _ in 0..16 {
        step(&mut cpu);
    }
    assert_eq!(cpu.stack_depth(), 16);
    let pc_before = cpu.pc();
    let r = cpu.execute();
    assert_eq!(r.unwrap_err(), Chip8Error::StackOverflow);
    assert_eq!(cpu.pc(), pc_before);
    assert_eq!(cpu.stack_depth(), 16);
}

#[test]
fn return_with_empty_stack_underflows() {
    let mut cpu = boot(&[0x00EE]);
    let r = cpu.execute();
    assert_eq!(r.unwrap_err(), Chip8Error::StackUnderflow);
    assert_eq!(cpu.pc(), 0x200);
}

#[test]
fn skip_if_equal_immediate() {
    let mut cpu = boot(&[0x6142, 0x3142]);
    step(&mut cpu);
    step(&mut cpu);
    assert_eq!(cpu.pc(), 0x206);
}

#[test]
fn no_skip_if_unequal_immediate() {
    let mut cpu = boot(&[0x6141, 0x3142]);
    step(&mut cpu);
    step(&mut cpu);
    assert_eq!(cpu.pc(), 0x204);
}

#[test]
fn skip_if_not_equal_immediate() {
    let mut cpu = boot(&[0x6141, 0x4142]);
    step(&mut cpu);
    step(&mut cpu);
    assert_eq!(cpu.pc(), 0x206);
}

#[test]
fn skip_if_registers_equal() {
    let mut cpu = boot(&[0x6307, 0x6407, 0x5340]);
    step(&mut cpu);
    step(&mut cpu);
    step(&mut cpu);
    assert_eq!(cpu.pc(), 0x208);
}

#[test]
fn skip_if_registers_not_equal() {
    let mut cpu = boot(&[0x6307, 0x6408, 0x9340]);
    step(&mut cpu);
    step(&mut cpu);
    step(&mut cpu);
    assert_eq!(cpu.pc(), 0x208);
}

#[test]
fn bitwise_or_and_xor() {
    let mut cpu = boot(&[0x610C, 0x620A, 0x8121]);
    step(&mut cpu);
    step(&mut cpu);
    step(&mut cpu);
    assert_eq!(cpu.reg(1), 0x0C | 0x0A);

    let mut cpu = boot(&[0x610C, 0x620A, 0x8122]);
    step(&mut cpu);
    step(&mut cpu);
    step(&mut cpu);
    assert_eq!(cpu.reg(1), 0x0C & 0x0A);

    let mut cpu = boot(&[0x610C, 0x620A, 0x8123]);
    step(&mut cpu);
    step(&mut cpu);
    step(&mut cpu);
    assert_eq!(cpu.reg(1), 0x0C ^ 0x0A);
}

#[test]
fn set_index_register() {
    let mut cpu = boot(&[0xA123]);
    step(&mut cpu);
    assert_eq!(cpu.index_reg(), 0x123);
    assert_eq!(cpu.pc(), 0x202);
}

#[test]
fn add_to_index_wraps_twelve_bits() {
    let mut cpu = boot(&[0xAFFF, 0x6102, 0xF11E]);
    step(&mut cpu);
    step(&mut cpu);
    step(&mut cpu);
    assert_eq!(cpu.index_reg(), 0x001);
}

#[test]
fn random_and_respects_mask() {
    let mut cpu = boot(&[0xC10F]);
    step(&mut cpu);
    assert_eq!(cpu.reg(1) & 0xF0, 0);

    let mut cpu = boot(&[0xC200]);
    step(&mut cpu);
    assert_eq!(cpu.reg(2), 0);
}

#[test]
fn clear_screen_yields_action() {
    let mut cpu = boot(&[0x00E0]);
    let act = step(&mut cpu);
    assert!(matches!(act, Action::ClearScreen));
    assert_eq!(cpu.pc(), 0x202);
}

#[test]
fn draw_reads_sprite_at_index() {
    // index at the zero glyph of the font table, draw 5 rows at (3, 7)
    let mut cpu = boot(&[0x6103, 0x6207, 0xA000, 0xD125]);
    step(&mut cpu);
    step(&mut cpu);
    step(&mut cpu);
    let act = step(&mut cpu);
    match act {
        Action::Draw { sprite, x, y } => {
            assert_eq!(sprite, vec![0xF0, 0x90, 0x90, 0x90, 0xF0]);
            assert_eq!(x, 3);
            assert_eq!(y, 7);
        }
        _ => panic!("expected a draw action"),
    }
    assert_eq!(cpu.pc(), 0x208);
}

#[test]
fn collision_flag_follows_display_report() {
    let mut cpu = CPU::new();
    cpu.apply_draw_result(true);
    assert_eq!(cpu.reg(15), 1);
    cpu.apply_draw_result(false);
    assert_eq!(cpu.reg(15), 0);
}

#[test]
fn unknown_opcode_reports_word_and_pc_without_mutation() {
    let mut cpu = boot(&[0x6105, 0x8AB4]);
    step(&mut cpu);
    let r = cpu.execute();
    assert_eq!(r.unwrap_err(), Chip8Error::UnimplementedOpcode(0x8AB4, 0x202));
    assert_eq!(cpu.pc(), 0x202);
    assert_eq!(cpu.reg(1), 5);
    for k in 0..16 {
        if k != 1 {
            assert_eq!(cpu.reg(k), 0);
        }
    }
    assert_eq!(cpu.stack_depth(), 0);
    assert_eq!(cpu.mem_at(0x200), 0x61);
}
