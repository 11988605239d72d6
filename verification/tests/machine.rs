use rc8_core::screen::{pixel_position, pixel_rect};
use rc8_core::semantics::{decode_instr, OpKind};
use rc8_core::{Chip8, Chip8Instr, PC_START_ADDR, SCREEN_HEIGHT, SCREEN_SIZE, SCREEN_WIDTH};

fn machine_with(program: &[u8]) -> Chip8 {
    let mut c = Chip8::new();
    c.load(program);
    c
}

fn run(c: &mut Chip8, ticks: usize) {
    for _ in 0..ticks {
        assert!(c.can_tick());
        c.tick();
    }
}

#[test]
fn instr_fields() {
    let i = Chip8Instr { bits: 0xABCD };
    assert_eq!(i.first(), 0xA);
    assert_eq!(i.second(), 0xB);
    assert_eq!(i.third(), 0xC);
    assert_eq!(i.fourth(), 0xD);
    assert_eq!(i.nn(), 0xCD);
    assert_eq!(i.nnn(), 0xBCD);
    assert_eq!(i.reg_x(), 0xB);
    assert_eq!(i.reg_y(), 0xC);
}

#[test]
fn instr_fields_compose() {
    for bits in [0x0000u16, 0x1234, 0xFFFF, 0x80E4, 0xF00A] {
        let i = Chip8Instr { bits };
        let whole = (i.first() << 12) | (i.second() << 8) | (i.third() << 4) | i.fourth();
        assert_eq!(whole, bits);
        assert_eq!(i.nnn(), bits & 0x0FFF);
        assert_eq!(i.nn() as u16, bits & 0x00FF);
    }
}

#[test]
fn decode_table() {
    assert!(matches!(decode_instr(&Chip8Instr { bits: 0x0000 }), Some(OpKind::Nop)));
    assert!(matches!(decode_instr(&Chip8Instr { bits: 0x00E0 }), Some(OpKind::ClearScreen)));
    assert!(matches!(decode_instr(&Chip8Instr { bits: 0x00EE }), Some(OpKind::Return)));
    assert!(matches!(decode_instr(&Chip8Instr { bits: 0x1234 }), Some(OpKind::Jump)));
    assert!(matches!(decode_instr(&Chip8Instr { bits: 0x5120 }), Some(OpKind::SkipEqReg)));
    assert!(matches!(decode_instr(&Chip8Instr { bits: 0x812E }), Some(OpKind::ShiftLeft)));
    assert!(matches!(decode_instr(&Chip8Instr { bits: 0xC3FF }), Some(OpKind::Random)));
    assert!(matches!(decode_instr(&Chip8Instr { bits: 0xE1A1 }), Some(OpKind::SkipKeyReleased)));
    assert!(matches!(decode_instr(&Chip8Instr { bits: 0xF50A }), Some(OpKind::WaitKey)));
    // Words the machine does not implement.
    assert!(decode_instr(&Chip8Instr { bits: 0x0123 }).is_none());
    assert!(decode_instr(&Chip8Instr { bits: 0x5121 }).is_none());
    assert!(decode_instr(&Chip8Instr { bits: 0x8128 }).is_none());
    assert!(decode_instr(&Chip8Instr { bits: 0xF129 }).is_none());
}

#[test]
fn new_machine() {
    let c = Chip8::new();
    assert_eq!(c.pc(), 0x200);
    assert_eq!(c.pc(), PC_START_ADDR);
    assert_eq!(c.stack_pointer(), 0);
    assert_eq!(c.index_register(), 0);
    for r in 0..16 {
        assert_eq!(c.register(r), 0);
    }
    assert_eq!(c.screen.len(), SCREEN_SIZE);
    assert!(c.screen.iter().all(|p| !*p));
    assert_eq!(c.memory(0), 0);
    assert_eq!(c.memory(4095), 0);
}

#[test]
fn load_copies_at_program_start() {
    let c = machine_with(&[1, 2, 3]);
    assert_eq!(c.memory(0x1FF), 0);
    assert_eq!(c.memory(0x200), 1);
    assert_eq!(c.memory(0x201), 2);
    assert_eq!(c.memory(0x202), 3);
    assert_eq!(c.memory(0x203), 0);
}

#[test]
fn load_largest_program() {
    let data = vec![0xAAu8; 4096 - 0x200];
    let c = machine_with(&data);
    assert_eq!(c.memory(0x200), 0xAA);
    assert_eq!(c.memory(4095), 0xAA);
    assert_eq!(c.memory(0x1FF), 0);
}

#[test]
fn nop_only_advances() {
    let mut c = machine_with(&[0x00, 0x00]);
    run(&mut c, 1);
    assert_eq!(c.pc(), 0x202);
}

#[test]
fn load_immediate_and_add() {
    let mut c = machine_with(&[0x63, 0xF0, 0x73, 0x20, 0x6F, 0x07, 0x7F, 0x01]);
    run(&mut c, 2);
    // 0xF0 + 0x20 wraps to 0x10; VF untouched by 7XNN.
    assert_eq!(c.register(3), 0x10);
    assert_eq!(c.register(0xF), 0);
    run(&mut c, 2);
    assert_eq!(c.register(0xF), 8);
    assert_eq!(c.pc(), 0x208);
}

#[test]
fn jump_sets_pc() {
    let mut c = machine_with(&[0x1A, 0xBC]);
    run(&mut c, 1);
    assert_eq!(c.pc(), 0xABC);
}

#[test]
fn call_then_return() {
    // 0x200: call 0x300; 0x300: return.
    let mut program = vec![0u8; 0x102];
    program[0] = 0x23;
    program[1] = 0x00;
    program[0x100] = 0x00;
    program[0x101] = 0xEE;
    let mut c = machine_with(&program);
    run(&mut c, 1);
    assert_eq!(c.pc(), 0x300);
    assert_eq!(c.stack_pointer(), 1);
    run(&mut c, 1);
    assert_eq!(c.pc(), 0x202);
    assert_eq!(c.stack_pointer(), 0);
}

#[test]
fn return_on_empty_stack_cannot_tick() {
    let c = machine_with(&[0x00, 0xEE]);
    assert!(!c.can_tick());
}

#[test]
fn call_on_full_stack_cannot_tick() {
    // Sixteen nested calls: each calls the next word.
    let mut program = Vec::new();
    for k in 0..17u16 {
        let target = 0x202 + 2 * k;
        program.push(0x20 | (target >> 8) as u8);
        program.push((target & 0xFF) as u8);
    }
    let mut c = machine_with(&program);
    run(&mut c, 16);
    assert_eq!(c.stack_pointer(), 16);
    assert!(!c.can_tick());
}

#[test]
fn unknown_opcode_cannot_tick() {
    let c = machine_with(&[0x01, 0x23]);
    assert!(!c.can_tick());
}

#[test]
fn skip_on_equal_immediate() {
    let mut c = machine_with(&[0x61, 0x05, 0x31, 0x05, 0x00, 0x00, 0x31, 0x06]);
    run(&mut c, 2);
    assert_eq!(c.pc(), 0x206);
    run(&mut c, 1);
    assert_eq!(c.pc(), 0x208);
}

#[test]
fn skip_on_not_equal_immediate() {
    let mut c = machine_with(&[0x41, 0x05, 0x00, 0x00, 0x41, 0x00]);
    run(&mut c, 1);
    assert_eq!(c.pc(), 0x204);
    run(&mut c, 1);
    assert_eq!(c.pc(), 0x206);
}

#[test]
fn skip_on_registers() {
    let mut c = machine_with(&[0x51, 0x20, 0x00, 0x00, 0x62, 0x01, 0x91, 0x20]);
    run(&mut c, 1);
    assert_eq!(c.pc(), 0x204);
    run(&mut c, 2);
    assert_eq!(c.pc(), 0x20A);
}

#[test]
fn register_logic() {
    let mut c = machine_with(&[
        0x60, 0b1100, 0x61, 0b1010, 0x82, 0x00, 0x82, 0x11, 0x83, 0x00, 0x83, 0x12, 0x84, 0x00,
        0x84, 0x13, 0x85, 0x10,
    ]);
    run(&mut c, 9);
    assert_eq!(c.register(2), 0b1110);
    assert_eq!(c.register(3), 0b1000);
    assert_eq!(c.register(4), 0b0110);
    assert_eq!(c.register(5), 0b1010);
}

#[test]
fn add_registers_sets_carry() {
    let mut c = machine_with(&[0x60, 0xF0, 0x61, 0x20, 0x80, 0x14, 0x80, 0x14]);
    run(&mut c, 3);
    assert_eq!(c.register(0), 0x10);
    assert_eq!(c.register(0xF), 1);
    // Law: new VX + 256 * VF is the true sum.
    assert_eq!(c.register(0) as u16 + 256 * c.register(0xF) as u16, 0xF0 + 0x20);
    run(&mut c, 1);
    assert_eq!(c.register(0), 0x30);
    assert_eq!(c.register(0xF), 0);
}

#[test]
fn subtract_registers_sets_borrow() {
    let mut c = machine_with(&[0x60, 0x10, 0x61, 0x20, 0x80, 0x15, 0x62, 0x20, 0x82, 0x15]);
    run(&mut c, 3);
    assert_eq!(c.register(0), 0xF0);
    assert_eq!(c.register(0xF), 1);
    run(&mut c, 2);
    assert_eq!(c.register(2), 0);
    assert_eq!(c.register(0xF), 0);
}

#[test]
fn reversed_subtract() {
    let mut c = machine_with(&[0x60, 0x10, 0x61, 0x30, 0x80, 0x17, 0x62, 0x40, 0x82, 0x17]);
    run(&mut c, 3);
    assert_eq!(c.register(0), 0x20);
    assert_eq!(c.register(0xF), 0);
    run(&mut c, 2);
    assert_eq!(c.register(2), 0xF0);
    assert_eq!(c.register(0xF), 1);
}

#[test]
fn add_into_flag_register_keeps_carry_only() {
    let mut c = machine_with(&[0x6F, 0xFF, 0x61, 0x01, 0x8F, 0x14]);
    run(&mut c, 3);
    assert_eq!(c.register(0xF), 1);
}

#[test]
fn shift_right() {
    let mut c = machine_with(&[0x61, 0x05, 0x80, 0x16]);
    run(&mut c, 2);
    assert_eq!(c.register(0), 0x02);
    assert_eq!(c.register(0xF), 1);
    assert_eq!(c.register(1), 0x05);
}

#[test]
fn shift_right_same_register_flags_original_low_bit() {
    // VF is the least significant bit of VY before the shift, also when X == Y.
    let mut c = machine_with(&[0x61, 0x05, 0x81, 0x16]);
    run(&mut c, 2);
    assert_eq!(c.register(1), 0x02);
    assert_eq!(c.register(0xF), 1);
}

#[test]
fn shift_right_of_one() {
    let mut c = machine_with(&[0x61, 0x01, 0x81, 0x16]);
    run(&mut c, 2);
    assert_eq!(c.register(1), 0);
    assert_eq!(c.register(0xF), 1);
}

#[test]
fn shift_left() {
    let mut c = machine_with(&[0x61, 0x8D, 0x80, 0x1E]);
    run(&mut c, 2);
    assert_eq!(c.register(0), 0x1A);
    assert_eq!(c.register(0xF), 1);
    assert_eq!(c.register(1), 0x8D);
}

#[test]
fn shift_left_even_value_and_same_register() {
    let mut c = machine_with(&[0x61, 0x8C, 0x80, 0x1E, 0x62, 0x01, 0x82, 0x2E]);
    run(&mut c, 2);
    assert_eq!(c.register(0), 0x18);
    assert_eq!(c.register(0xF), 0);
    run(&mut c, 2);
    assert_eq!(c.register(2), 0x02);
    assert_eq!(c.register(0xF), 1);
}

#[test]
fn set_index_and_jump_offset() {
    let mut c = machine_with(&[0xA1, 0x23, 0x60, 0x10, 0xB3, 0x00]);
    run(&mut c, 3);
    assert_eq!(c.index_register(), 0x123);
    assert_eq!(c.pc(), 0x310);
}

#[test]
fn random_is_masked() {
    let mut c = machine_with(&[0xC0, 0x00, 0xC1, 0x0F]);
    run(&mut c, 2);
    assert_eq!(c.register(0), 0);
    assert!(c.register(1) <= 0x0F);
}

#[test]
fn random_with_given_byte() {
    let mut c = machine_with(&[0xC2, 0x3C, 0x63, 0x07]);
    c.tick_with_random(0xFF);
    assert_eq!(c.register(2), 0x3C);
    // Other instructions do not read the byte.
    c.tick_with_random(0xAB);
    assert_eq!(c.register(3), 0x07);
    assert_eq!(c.pc(), 0x204);
}

#[test]
fn draw_does_nothing_yet() {
    let mut c = machine_with(&[0xD0, 0x15]);
    run(&mut c, 1);
    assert_eq!(c.pc(), 0x202);
    assert!(c.screen.iter().all(|p| !*p));
}

#[test]
fn clear_screen() {
    let mut c = machine_with(&[0x00, 0xE0]);
    c.screen[5] = true;
    c.screen[SCREEN_SIZE - 1] = true;
    run(&mut c, 1);
    assert!(c.screen.iter().all(|p| !*p));
}

#[test]
fn key_skips_with_no_key_pressed() {
    // V0 = 3: key 3 is not pressed, so EXA1 skips and EX9E does not.
    let mut c = machine_with(&[0x60, 0x03, 0xE0, 0xA1, 0x00, 0x00, 0xE0, 0x9E]);
    run(&mut c, 2);
    assert_eq!(c.pc(), 0x206);
    run(&mut c, 1);
    assert_eq!(c.pc(), 0x208);
}

#[test]
fn key_skip_ignores_values_that_are_no_key() {
    let mut c = machine_with(&[0x60, 0x20, 0xE0, 0xA1]);
    run(&mut c, 2);
    assert_eq!(c.pc(), 0x204);
}

#[test]
fn delay_timer_read() {
    let mut c = machine_with(&[0x65, 0x09, 0xF5, 0x07]);
    run(&mut c, 2);
    assert_eq!(c.register(5), 0);
}

#[test]
fn wait_key_blocks() {
    let mut c = machine_with(&[0xF3, 0x0A]);
    for _ in 0..3 {
        run(&mut c, 1);
        assert_eq!(c.pc(), 0x200);
        assert_eq!(c.register(3), 0);
    }
}

#[test]
fn fetch_past_memory_cannot_tick() {
    let mut program = vec![0u8; 4096 - 0x200];
    program[4096 - 0x200 - 2] = 0x1F;
    program[4096 - 0x200 - 1] = 0xFF;
    let mut c = machine_with(&program);
    // Jump to the last byte of memory, from where no word can be fetched.
    let mut jump = vec![0x1Fu8, 0xFF];
    jump.extend_from_slice(&[0; 2]);
    c.load(&jump);
    run(&mut c, 1);
    assert_eq!(c.pc(), 0xFFF);
    assert!(!c.can_tick());
}

#[test]
fn pixel_positions() {
    assert_eq!(pixel_position(0), (0, 0));
    assert_eq!(pixel_position(63), (63, 0));
    assert_eq!(pixel_position(64), (0, 1));
    assert_eq!(pixel_position(130), (2, 2));
    assert_eq!(pixel_position(SCREEN_SIZE - 1), (SCREEN_WIDTH - 1, SCREEN_HEIGHT - 1));
}

#[test]
fn pixel_rects() {
    assert_eq!(pixel_rect(0, 15), (0, 0, 15, 15));
    assert_eq!(pixel_rect(65, 15), (15, 15, 15, 15));
    assert_eq!(pixel_rect(SCREEN_SIZE - 1, 15), (63 * 15, 31 * 15, 15, 15));
}

#[test]
fn stack_pointer_stays_in_stack() {
    let mut c = machine_with(&[0x22, 0x02, 0x22, 0x04, 0x00, 0xEE]);
    run(&mut c, 2);
    assert!(c.stack_pointer() as usize <= 16);
    assert_eq!(c.stack_pointer(), 2);
}
