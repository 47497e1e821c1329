use chip8_core::{decode, Emu, Instruction, Quirks};

fn with_regs(values: &[(u8, u8)]) -> Emu {
    let mut emu = Emu::new();
    for (x, v) in values {
        emu.execute_with(0x6000 | ((*x as u16) << 8) | *v as u16, 0).unwrap();
    }
    emu
}

#[test]
fn decode_reads_the_four_digits() {
    assert_eq!(decode(0x0000), Some(Instruction::Nop));
    assert_eq!(decode(0x00E0), Some(Instruction::ClearScreen));
    assert_eq!(decode(0x00EE), Some(Instruction::Return));
    assert_eq!(decode(0x1ABC), Some(Instruction::Jump { addr: 0xABC }));
    assert_eq!(decode(0x2FFF), Some(Instruction::Call { addr: 0xFFF }));
    assert_eq!(decode(0x3A12), Some(Instruction::SkipEqImm { x: 0xA, kk: 0x12 }));
    assert_eq!(decode(0x4B34), Some(Instruction::SkipNeImm { x: 0xB, kk: 0x34 }));
    assert_eq!(decode(0x5120), Some(Instruction::SkipEqReg { x: 1, y: 2 }));
    assert_eq!(decode(0x6CFF), Some(Instruction::LoadImm { x: 0xC, kk: 0xFF }));
    assert_eq!(decode(0x7D01), Some(Instruction::AddImm { x: 0xD, kk: 0x01 }));
    assert_eq!(decode(0x8120), Some(Instruction::Move { x: 1, y: 2 }));
    assert_eq!(decode(0x8121), Some(Instruction::Or { x: 1, y: 2 }));
    assert_eq!(decode(0x8122), Some(Instruction::And { x: 1, y: 2 }));
    assert_eq!(decode(0x8123), Some(Instruction::Xor { x: 1, y: 2 }));
    assert_eq!(decode(0x8124), Some(Instruction::AddCarry { x: 1, y: 2 }));
    assert_eq!(decode(0x8125), Some(Instruction::Sub { x: 1, y: 2 }));
    assert_eq!(decode(0x8126), Some(Instruction::ShiftRight { x: 1, y: 2 }));
    assert_eq!(decode(0x8127), Some(Instruction::SubReverse { x: 1, y: 2 }));
    assert_eq!(decode(0x812E), Some(Instruction::ShiftLeft { x: 1, y: 2 }));
    assert_eq!(decode(0x9EF0), Some(Instruction::SkipNeReg { x: 0xE, y: 0xF }));
    assert_eq!(decode(0xA123), Some(Instruction::LoadIndex { addr: 0x123 }));
    assert_eq!(decode(0xB456), Some(Instruction::JumpOffset { addr: 0x456 }));
    assert_eq!(decode(0xC7F0), Some(Instruction::Random { x: 7, kk: 0xF0 }));
    assert_eq!(decode(0xD12F), Some(Instruction::Draw { x: 1, y: 2, n: 0xF }));
    assert_eq!(decode(0xE39E), Some(Instruction::SkipKeyPressed { x: 3 }));
    assert_eq!(decode(0xE3A1), Some(Instruction::SkipKeyNotPressed { x: 3 }));
    assert_eq!(decode(0xF407), Some(Instruction::ReadDelay { x: 4 }));
    assert_eq!(decode(0xF40A), Some(Instruction::WaitKey { x: 4 }));
    assert_eq!(decode(0xF415), Some(Instruction::SetDelay { x: 4 }));
    assert_eq!(decode(0xF418), Some(Instruction::SetSound { x: 4 }));
    assert_eq!(decode(0xF41E), Some(Instruction::AddIndex { x: 4 }));
    assert_eq!(decode(0xF429), Some(Instruction::FontAddr { x: 4 }));
    assert_eq!(decode(0xF433), Some(Instruction::Bcd { x: 4 }));
    assert_eq!(decode(0xF455), Some(Instruction::StoreRegs { x: 4 }));
    assert_eq!(decode(0xF465), Some(Instruction::LoadRegs { x: 4 }));
}

#[test]
fn decode_rejects_what_matches_no_pattern() {
    for op in [0x0001u16, 0x00EF, 0x0100, 0x5001, 0x500F, 0x8008, 0x800D, 0x800F, 0x9001, 0xE000, 0xE19F, 0xF001, 0xF166, 0xFFFF] {
        assert_eq!(decode(op), None);
    }
}

#[test]
fn decode_accepts_or_rejects_every_opcode_consistently() {
    let mut known = 0u32;
    for op in 0..=0xFFFFu16 {
        if decode(op).is_some() {
            known += 1;
        }
    }
    // 3 of family 0, ten full families, two with last digit 0, nine
    // arithmetic forms, two key skips and nine F forms for each register
    assert_eq!(known, 3 + 10 * 4096 + 2 * 256 + 9 * 256 + 2 * 16 + 9 * 16);
}

#[test]
fn nop_changes_nothing() {
    let mut emu = with_regs(&[(1, 7)]);
    emu.execute_with(0x0000, 0).unwrap();
    assert_eq!(emu.pc(), 0x200);
    assert_eq!(emu.registers()[1], 7);
}

#[test]
fn jump_sets_program_counter() {
    let mut emu = Emu::new();
    emu.execute_with(0x1ABC, 0).unwrap();
    assert_eq!(emu.pc(), 0xABC);
}

#[test]
fn jump_with_offset_adds_v0() {
    let mut emu = with_regs(&[(0, 0x10)]);
    emu.execute_with(0xB300, 0).unwrap();
    assert_eq!(emu.pc(), 0x310);
}

#[test]
fn call_and_return_nest() {
    let mut emu = Emu::new();
    emu.execute_with(0x2300, 0).unwrap();
    emu.execute_with(0x2400, 0).unwrap();
    assert_eq!(emu.stack_depth(), 2);
    assert_eq!(emu.pc(), 0x400);
    emu.execute_with(0x00EE, 0).unwrap();
    assert_eq!(emu.pc(), 0x300);
    emu.execute_with(0x00EE, 0).unwrap();
    assert_eq!(emu.pc(), 0x200);
    assert_eq!(emu.stack_depth(), 0);
}

#[test]
fn skips_compare_with_immediate() {
    let mut emu = with_regs(&[(2, 0x42)]);
    emu.execute_with(0x3242, 0).unwrap();
    assert_eq!(emu.pc(), 0x202);
    emu.execute_with(0x3243, 0).unwrap();
    assert_eq!(emu.pc(), 0x202);
    emu.execute_with(0x4243, 0).unwrap();
    assert_eq!(emu.pc(), 0x204);
    emu.execute_with(0x4242, 0).unwrap();
    assert_eq!(emu.pc(), 0x204);
}

#[test]
fn skips_compare_two_registers() {
    let mut emu = with_regs(&[(1, 9), (2, 9), (3, 8)]);
    emu.execute_with(0x5120, 0).unwrap();
    assert_eq!(emu.pc(), 0x202);
    emu.execute_with(0x5130, 0).unwrap();
    assert_eq!(emu.pc(), 0x202);
    emu.execute_with(0x9130, 0).unwrap();
    assert_eq!(emu.pc(), 0x204);
    emu.execute_with(0x9120, 0).unwrap();
    assert_eq!(emu.pc(), 0x204);
}

#[test]
fn skip_through_tick_moves_past_next_instruction() {
    let mut emu = Emu::new();
    emu.load(&[0x30, 0x00, 0x61, 0x01, 0x62, 0x02]).unwrap();
    emu.tick().unwrap();
    assert_eq!(emu.pc(), 0x204);
    emu.tick().unwrap();
    assert_eq!(emu.registers()[1], 0);
    assert_eq!(emu.registers()[2], 2);
}

#[test]
fn add_immediate_wraps_without_flag() {
    let mut emu = with_regs(&[(3, 0xFF), (0xF, 0x55)]);
    emu.execute_with(0x7302, 0).unwrap();
    assert_eq!(emu.registers()[3], 0x01);
    assert_eq!(emu.registers()[0xF], 0x55);
}

#[test]
fn move_and_bitwise_operations() {
    let mut emu = with_regs(&[(1, 0b1100), (2, 0b1010), (0xF, 9)]);
    emu.execute_with(0x8320, 0).unwrap();
    assert_eq!(emu.registers()[3], 0b1010);
    emu.execute_with(0x8121, 0).unwrap();
    assert_eq!(emu.registers()[1], 0b1110);
    let mut emu = with_regs(&[(1, 0b1100), (2, 0b1010), (0xF, 9)]);
    emu.execute_with(0x8122, 0).unwrap();
    assert_eq!(emu.registers()[1], 0b1000);
    let mut emu = with_regs(&[(1, 0b1100), (2, 0b1010), (0xF, 9)]);
    emu.execute_with(0x8123, 0).unwrap();
    assert_eq!(emu.registers()[1], 0b0110);
    assert_eq!(emu.registers()[0xF], 9);
}

#[test]
fn add_with_carry_sets_flag_on_overflow() {
    let mut emu = with_regs(&[(1, 0xF0), (2, 0x20)]);
    emu.execute_with(0x8124, 0).unwrap();
    assert_eq!(emu.registers()[1], 0x10);
    assert_eq!(emu.registers()[0xF], 1);
    let mut emu = with_regs(&[(1, 0xF0), (2, 0x0F), (0xF, 1)]);
    emu.execute_with(0x8124, 0).unwrap();
    assert_eq!(emu.registers()[1], 0xFF);
    assert_eq!(emu.registers()[0xF], 0);
    let mut emu = with_regs(&[(1, 0xFF), (2, 0x01)]);
    emu.execute_with(0x8124, 0).unwrap();
    assert_eq!(emu.registers()[1], 0x00);
    assert_eq!(emu.registers()[0xF], 1);
}

#[test]
fn add_with_carry_for_all_byte_pairs() {
    let mut emu = Emu::new();
    for a in 0..=255u16 {
        for b in [0u16, 1, 127, 128, 200, 255] {
            emu.execute_with(0x6100 | a, 0).unwrap();
            emu.execute_with(0x6200 | b, 0).unwrap();
            emu.execute_with(0x8124, 0).unwrap();
            assert_eq!(emu.registers()[1] as u16, (a + b) % 256);
            assert_eq!(emu.registers()[0xF] as u16, if a + b >= 256 { 1 } else { 0 });
        }
    }
}

#[test]
fn subtract_sets_flag_when_no_borrow() {
    let mut emu = with_regs(&[(1, 0x30), (2, 0x10)]);
    emu.execute_with(0x8125, 0).unwrap();
    assert_eq!(emu.registers()[1], 0x20);
    assert_eq!(emu.registers()[0xF], 1);
    let mut emu = with_regs(&[(1, 0x10), (2, 0x30)]);
    emu.execute_with(0x8125, 0).unwrap();
    assert_eq!(emu.registers()[1], 0xE0);
    assert_eq!(emu.registers()[0xF], 0);
    let mut emu = with_regs(&[(1, 0x10), (2, 0x10)]);
    emu.execute_with(0x8125, 0).unwrap();
    assert_eq!(emu.registers()[1], 0x00);
    assert_eq!(emu.registers()[0xF], 1);
}

#[test]
fn reverse_subtract_sets_flag_when_no_borrow() {
    let mut emu = with_regs(&[(1, 0x10), (2, 0x30)]);
    emu.execute_with(0x8127, 0).unwrap();
    assert_eq!(emu.registers()[1], 0x20);
    assert_eq!(emu.registers()[0xF], 1);
    let mut emu = with_regs(&[(1, 0x30), (2, 0x10)]);
    emu.execute_with(0x8127, 0).unwrap();
    assert_eq!(emu.registers()[1], 0xE0);
    assert_eq!(emu.registers()[0xF], 0);
    let mut emu = with_regs(&[(1, 0x07), (2, 0x07)]);
    emu.execute_with(0x8127, 0).unwrap();
    assert_eq!(emu.registers()[1], 0x00);
    assert_eq!(emu.registers()[0xF], 1);
}

#[test]
fn flag_wins_when_target_is_flag_register() {
    let mut emu = with_regs(&[(0xF, 0xF0), (2, 0x20)]);
    emu.execute_with(0x8F24, 0).unwrap();
    assert_eq!(emu.registers()[0xF], 1);
    let mut emu = with_regs(&[(0xF, 0x81)]);
    emu.execute_with(0x8F0E, 0).unwrap();
    assert_eq!(emu.registers()[0xF], 1);
    let mut emu = with_regs(&[(0xF, 0x02)]);
    emu.execute_with(0x8F06, 0).unwrap();
    assert_eq!(emu.registers()[0xF], 0);
}

#[test]
fn shifts_operate_on_vx_by_default() {
    let mut emu = with_regs(&[(1, 0b1000_0101), (2, 0xFF)]);
    emu.execute_with(0x8126, 0).unwrap();
    assert_eq!(emu.registers()[1], 0b0100_0010);
    assert_eq!(emu.registers()[0xF], 1);
    assert_eq!(emu.registers()[2], 0xFF);
    let mut emu = with_regs(&[(1, 0b1000_0101), (2, 0x00)]);
    emu.execute_with(0x812E, 0).unwrap();
    assert_eq!(emu.registers()[1], 0b0000_1010);
    assert_eq!(emu.registers()[0xF], 1);
    let mut emu = with_regs(&[(1, 0b0100_0100)]);
    emu.execute_with(0x812E, 0).unwrap();
    assert_eq!(emu.registers()[1], 0b1000_1000);
    assert_eq!(emu.registers()[0xF], 0);
    emu.execute_with(0x8126, 0).unwrap();
    assert_eq!(emu.registers()[1], 0b0100_0100);
    assert_eq!(emu.registers()[0xF], 0);
}

#[test]
fn shifts_read_vy_under_the_quirk() {
    let mut emu = Emu::with_quirks(Quirks { shift_uses_vy: true });
    emu.execute_with(0x61FF, 0).unwrap();
    emu.execute_with(0x6206, 0).unwrap();
    emu.execute_with(0x8126, 0).unwrap();
    assert_eq!(emu.registers()[1], 3);
    assert_eq!(emu.registers()[2], 6);
    assert_eq!(emu.registers()[0xF], 0);
    emu.execute_with(0x6281, 0).unwrap();
    emu.execute_with(0x812E, 0).unwrap();
    assert_eq!(emu.registers()[1], 0x02);
    assert_eq!(emu.registers()[0xF], 1);
}

#[test]
fn baseline_quirks_shift_in_place() {
    assert_eq!(Quirks::baseline(), Quirks { shift_uses_vy: false });
}

#[test]
fn index_load_and_add() {
    let mut emu = with_regs(&[(5, 0x10)]);
    emu.execute_with(0xA123, 0).unwrap();
    assert_eq!(emu.index(), 0x123);
    emu.execute_with(0xF51E, 0).unwrap();
    assert_eq!(emu.index(), 0x133);
}

#[test]
fn index_add_wraps_at_sixteen_bits() {
    let mut emu = with_regs(&[(0, 0xFF)]);
    emu.execute_with(0xAFFF, 0).unwrap();
    let mut expected: u32 = 0xFFF;
    for _ in 0..300 {
        emu.execute_with(0xF01E, 0).unwrap();
        expected = (expected + 0xFF) % 0x10000;
        assert_eq!(emu.index() as u32, expected);
    }
    assert!(expected < 0xFFF + 300 * 0xFF);
}

#[test]
fn font_address_is_five_times_low_nibble() {
    let mut emu = with_regs(&[(0, 0x0A), (1, 0x00), (2, 0x0F), (3, 0x1A)]);
    emu.execute_with(0xF029, 0).unwrap();
    assert_eq!(emu.index(), 50);
    emu.execute_with(0xF129, 0).unwrap();
    assert_eq!(emu.index(), 0);
    emu.execute_with(0xF229, 0).unwrap();
    assert_eq!(emu.index(), 75);
    emu.execute_with(0xF329, 0).unwrap();
    assert_eq!(emu.index(), 50);
}

#[test]
fn bcd_writes_three_decimal_digits() {
    for (value, digits) in [(255u16, [2u8, 5, 5]), (100, [1, 0, 0]), (199, [1, 9, 9]), (200, [2, 0, 0]), (90, [0, 9, 0]), (7, [0, 0, 7]), (0, [0, 0, 0])] {
        let mut emu = Emu::new();
        emu.execute_with(0x6300 | value, 0).unwrap();
        emu.execute_with(0xA400, 0).unwrap();
        emu.execute_with(0xF333, 0).unwrap();
        assert_eq!(&emu.memory()[0x400..0x403], &digits);
        assert_eq!(emu.memory()[0x403], 0);
        assert_eq!(emu.index(), 0x400);
    }
}

#[test]
fn bcd_is_exact_for_every_byte() {
    let mut emu = Emu::new();
    emu.execute_with(0xA400, 0).unwrap();
    for value in 0..=255u16 {
        emu.execute_with(0x6300 | value, 0).unwrap();
        emu.execute_with(0xF333, 0).unwrap();
        let m = emu.memory();
        assert_eq!(m[0x400] as u16 * 100 + m[0x401] as u16 * 10 + m[0x402] as u16, value);
        assert!(m[0x401] < 10 && m[0x402] < 10);
    }
}

#[test]
fn store_and_load_registers_inclusive() {
    let mut emu = with_regs(&[(0, 1), (1, 2), (2, 3), (3, 4)]);
    emu.execute_with(0xA300, 0).unwrap();
    emu.execute_with(0xF255, 0).unwrap();
    assert_eq!(&emu.memory()[0x300..0x304], &[1, 2, 3, 0]);
    assert_eq!(emu.index(), 0x300);
    let mut other = with_regs(&[(3, 0x99)]);
    other.load(&[0xAA, 0xBB, 0xCC, 0xDD]).unwrap();
    other.execute_with(0xA200, 0).unwrap();
    other.execute_with(0xF265, 0).unwrap();
    assert_eq!(&other.registers()[0..4], &[0xAA, 0xBB, 0xCC, 0x99]);
    assert_eq!(other.index(), 0x200);
}

#[test]
fn store_all_sixteen_registers() {
    let mut emu = Emu::new();
    for x in 0..16u16 {
        emu.execute_with(0x6000 | (x << 8) | (0x10 + x), 0).unwrap();
    }
    emu.execute_with(0xAFF0, 0).unwrap();
    emu.execute_with(0xFF55, 0).unwrap();
    for x in 0..16usize {
        assert_eq!(emu.memory()[0xFF0 + x], 0x10 + x as u8);
    }
    let mut back = Emu::new();
    back.load(&emu.memory()[0x200..]).unwrap();
    back.execute_with(0xAFF0, 0).unwrap();
    back.execute_with(0xFF65, 0).unwrap();
    assert_eq!(back.registers(), emu.registers());
}

#[test]
fn timers_are_set_and_read_through_registers() {
    let mut emu = with_regs(&[(1, 0x33), (2, 0x44)]);
    emu.execute_with(0xF115, 0).unwrap();
    emu.execute_with(0xF218, 0).unwrap();
    assert_eq!(emu.delay_timer(), 0x33);
    assert_eq!(emu.sound_timer(), 0x44);
    emu.execute_with(0xF507, 0).unwrap();
    assert_eq!(emu.registers()[5], 0x33);
}

#[test]
fn key_skips_follow_keypad() {
    let mut emu = with_regs(&[(1, 0xA)]);
    emu.execute_with(0xE19E, 0).unwrap();
    assert_eq!(emu.pc(), 0x200);
    emu.execute_with(0xE1A1, 0).unwrap();
    assert_eq!(emu.pc(), 0x202);
    emu.keypress(0xA, true).unwrap();
    emu.execute_with(0xE19E, 0).unwrap();
    assert_eq!(emu.pc(), 0x204);
    emu.execute_with(0xE1A1, 0).unwrap();
    assert_eq!(emu.pc(), 0x204);
    emu.keypress(0xA, false).unwrap();
    emu.execute_with(0xE19E, 0).unwrap();
    assert_eq!(emu.pc(), 0x204);
}

#[test]
fn wait_key_repeats_until_a_key_is_pressed() {
    let mut emu = Emu::new();
    emu.load(&[0xF3, 0x0A, 0x61, 0x01]).unwrap();
    assert!(emu.awaiting_key());
    for _ in 0..5 {
        emu.tick().unwrap();
        assert_eq!(emu.pc(), 0x200);
        assert!(emu.awaiting_key());
    }
    emu.keypress(7, true).unwrap();
    emu.keypress(4, true).unwrap();
    emu.keypress(9, true).unwrap();
    assert!(!emu.awaiting_key());
    emu.tick().unwrap();
    assert_eq!(emu.pc(), 0x202);
    assert_eq!(emu.registers()[3], 4);
    assert!(!emu.awaiting_key());
}

#[test]
fn wait_key_leaves_timers_to_the_timer_clock() {
    let mut emu = with_regs(&[(0, 3)]);
    emu.execute_with(0xF015, 0).unwrap();
    emu.load(&[0xF3, 0x0A]).unwrap();
    emu.tick().unwrap();
    emu.tick().unwrap();
    assert_eq!(emu.delay_timer(), 3);
    emu.tick_timers();
    assert_eq!(emu.delay_timer(), 2);
}

#[test]
fn awaiting_key_is_false_off_a_wait() {
    let mut emu = Emu::new();
    emu.load(&[0x60, 0x01]).unwrap();
    assert!(!emu.awaiting_key());
    emu.execute_with(0x1FFF, 0).unwrap();
    assert!(!emu.awaiting_key());
}
