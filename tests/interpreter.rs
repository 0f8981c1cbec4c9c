use chip8::{build_cpu, build_cpu_with_quirks, Cpu, Instruction, RomError, MAX_ROM_SIZE};

fn cpu_with_rom(rom: &[u8]) -> Cpu {
    let mut cpu = build_cpu();
    cpu.load_rom(rom).unwrap();
    cpu
}

fn lit_pixels(cpu: &Cpu) -> usize {
    cpu.get_display()
        .iter()
        .map(|row| row.iter().filter(|&&p| p == 1).count())
        .sum()
}

#[test]
fn add_program_end_to_end() {
    let mut cpu = cpu_with_rom(&[0x60, 0x05, 0x61, 0x03, 0x80, 0x14]);
    for _ in 0..3 {
        cpu.cycle();
    }
    assert_eq!(cpu.v_register(0), 8);
    assert_eq!(cpu.v_register(0xF), 0);
    assert_eq!(cpu.program_counter(), 0x206);
}

#[test]
fn clear_after_draw_blanks_screen() {
    // V0 = 0, I = glyph 0, draw it at (0, 0), then clear.
    let mut cpu = cpu_with_rom(&[0x60, 0x00, 0xA0, 0x00, 0xD0, 0x05, 0x00, 0xE0]);
    for _ in 0..3 {
        cpu.cycle();
    }
    assert!(lit_pixels(&cpu) > 0);
    cpu.end_frame();
    cpu.cycle();
    assert_eq!(lit_pixels(&cpu), 0);
    assert_eq!(cpu.get_display(), [[0u8; 64]; 32]);
    assert_eq!(cpu.program_counter(), 0x208);
}

#[test]
fn add_sets_carry_and_wraps() {
    let mut cpu = cpu_with_rom(&[0x60, 200, 0x61, 100, 0x80, 0x14]);
    for _ in 0..3 {
        cpu.cycle();
    }
    assert_eq!(cpu.v_register(0), 44);
    assert_eq!(cpu.v_register(0xF), 1);

    let mut cpu = build_cpu();
    cpu.execute(Instruction::SetVx { x: 2, nn: 255 }, 0);
    cpu.execute(Instruction::SetVx { x: 3, nn: 1 }, 0);
    cpu.execute(Instruction::AddVyToVx { x: 2, y: 3 }, 0);
    assert_eq!(cpu.v_register(2), 0);
    assert_eq!(cpu.v_register(0xF), 1);
    cpu.execute(Instruction::SetVx { x: 2, nn: 254 }, 0);
    cpu.execute(Instruction::AddVyToVx { x: 2, y: 3 }, 0);
    assert_eq!(cpu.v_register(2), 255);
    assert_eq!(cpu.v_register(0xF), 0);
}

#[test]
fn add_into_flag_register_keeps_flag() {
    let mut cpu = build_cpu();
    cpu.execute(Instruction::SetVx { x: 0xF, nn: 200 }, 0);
    cpu.execute(Instruction::SetVx { x: 1, nn: 100 }, 0);
    cpu.execute(Instruction::AddVyToVx { x: 0xF, y: 1 }, 0);
    assert_eq!(cpu.v_register(0xF), 1);
}

#[test]
fn add_immediate_wraps_without_flag() {
    let mut cpu = cpu_with_rom(&[0x6F, 0x07, 0x60, 250, 0x70, 10]);
    for _ in 0..3 {
        cpu.cycle();
    }
    assert_eq!(cpu.v_register(0), 4);
    assert_eq!(cpu.v_register(0xF), 7);
}

#[test]
fn sub_flags_no_borrow() {
    let mut cpu = build_cpu();
    cpu.execute(Instruction::SetVx { x: 0, nn: 10 }, 0);
    cpu.execute(Instruction::SetVx { x: 1, nn: 3 }, 0);
    cpu.execute(Instruction::SubVyFromVx { x: 0, y: 1 }, 0);
    assert_eq!(cpu.v_register(0), 7);
    assert_eq!(cpu.v_register(0xF), 1);

    cpu.execute(Instruction::SetVx { x: 0, nn: 3 }, 0);
    cpu.execute(Instruction::SetVx { x: 1, nn: 10 }, 0);
    cpu.execute(Instruction::SubVyFromVx { x: 0, y: 1 }, 0);
    assert_eq!(cpu.v_register(0), 249);
    assert_eq!(cpu.v_register(0xF), 0);

    cpu.execute(Instruction::SetVx { x: 0, nn: 5 }, 0);
    cpu.execute(Instruction::SetVx { x: 1, nn: 5 }, 0);
    cpu.execute(Instruction::SubVyFromVx { x: 0, y: 1 }, 0);
    assert_eq!(cpu.v_register(0), 0);
    assert_eq!(cpu.v_register(0xF), 1);
}

#[test]
fn reverse_sub_flags_no_borrow() {
    let mut cpu = build_cpu();
    cpu.execute(Instruction::SetVx { x: 0, nn: 3 }, 0);
    cpu.execute(Instruction::SetVx { x: 1, nn: 10 }, 0);
    cpu.execute(Instruction::SubVxFromVy { x: 0, y: 1 }, 0);
    assert_eq!(cpu.v_register(0), 7);
    assert_eq!(cpu.v_register(0xF), 1);

    cpu.execute(Instruction::SetVx { x: 0, nn: 10 }, 0);
    cpu.execute(Instruction::SetVx { x: 1, nn: 3 }, 0);
    cpu.execute(Instruction::SubVxFromVy { x: 0, y: 1 }, 0);
    assert_eq!(cpu.v_register(0), 249);
    assert_eq!(cpu.v_register(0xF), 0);
}

#[test]
fn shifts_put_outgoing_bit_in_flag() {
    let mut cpu = build_cpu();
    cpu.execute(Instruction::SetVx { x: 1, nn: 0b1000_0101 }, 0);
    cpu.execute(Instruction::ShiftRight { x: 0, y: 1 }, 0);
    assert_eq!(cpu.v_register(0), 0b0100_0010);
    assert_eq!(cpu.v_register(0xF), 1);
    cpu.execute(Instruction::ShiftLeft { x: 0, y: 1 }, 0);
    assert_eq!(cpu.v_register(0), 0b0000_1010);
    assert_eq!(cpu.v_register(0xF), 1);

    cpu.execute(Instruction::SetVx { x: 1, nn: 0b0100_0010 }, 0);
    cpu.execute(Instruction::ShiftRight { x: 0, y: 1 }, 0);
    assert_eq!(cpu.v_register(0), 0b0010_0001);
    assert_eq!(cpu.v_register(0xF), 0);
    cpu.execute(Instruction::ShiftLeft { x: 0, y: 1 }, 0);
    assert_eq!(cpu.v_register(0), 0b1000_0100);
    assert_eq!(cpu.v_register(0xF), 0);
}

#[test]
fn logic_ops_clear_flag() {
    let mut cpu = build_cpu();
    cpu.execute(Instruction::SetVx { x: 0, nn: 0b1100 }, 0);
    cpu.execute(Instruction::SetVx { x: 1, nn: 0b1010 }, 0);
    cpu.execute(Instruction::SetVx { x: 0xF, nn: 1 }, 0);
    cpu.execute(Instruction::Or { x: 0, y: 1 }, 0);
    assert_eq!(cpu.v_register(0), 0b1110);
    assert_eq!(cpu.v_register(0xF), 0);

    cpu.execute(Instruction::SetVx { x: 0xF, nn: 1 }, 0);
    cpu.execute(Instruction::And { x: 0, y: 1 }, 0);
    assert_eq!(cpu.v_register(0), 0b1010);
    assert_eq!(cpu.v_register(0xF), 0);

    cpu.execute(Instruction::SetVx { x: 0xF, nn: 1 }, 0);
    cpu.execute(Instruction::SetVx { x: 0, nn: 0b1100 }, 0);
    cpu.execute(Instruction::Xor { x: 0, y: 1 }, 0);
    assert_eq!(cpu.v_register(0), 0b0110);
    assert_eq!(cpu.v_register(0xF), 0);
}

#[test]
fn draw_twice_restores_screen() {
    let mut cpu = build_cpu();
    cpu.execute(Instruction::SetVx { x: 0, nn: 10 }, 0);
    cpu.execute(Instruction::SetVx { x: 1, nn: 4 }, 0);
    cpu.execute(Instruction::SetI { nnn: 5 * 8 }, 0);
    let before = cpu.get_display();
    cpu.execute(Instruction::Draw { x: 0, y: 1, n: 5 }, 0);
    assert_eq!(cpu.v_register(0xF), 0);
    // Glyph 8 is 0xF0 0x90 0xF0 0x90 0xF0: sixteen lit pixels.
    assert_eq!(lit_pixels(&cpu), 16);
    assert_eq!(cpu.get_display()[4][10], 1);
    assert_eq!(cpu.get_display()[5][11], 0);
    cpu.execute(Instruction::Draw { x: 0, y: 1, n: 5 }, 0);
    assert_eq!(cpu.v_register(0xF), 1);
    assert_eq!(cpu.get_display(), before);
}

#[test]
fn draw_over_lit_pixels_reports_collision() {
    let mut cpu = build_cpu();
    cpu.execute(Instruction::SetI { nnn: 0 }, 0);
    cpu.execute(Instruction::Draw { x: 0, y: 0, n: 1 }, 0);
    assert_eq!(cpu.v_register(0xF), 0);
    // Glyph 1's first row, 0x20, overlaps 0xF0 at column 2.
    cpu.execute(Instruction::SetI { nnn: 5 }, 0);
    cpu.execute(Instruction::Draw { x: 0, y: 0, n: 1 }, 0);
    assert_eq!(cpu.v_register(0xF), 1);
    assert_eq!(cpu.get_display()[0][..4], [1, 1, 0, 1]);
}

#[test]
fn draw_clips_at_edges_by_default() {
    let mut cpu = build_cpu();
    cpu.execute(Instruction::SetVx { x: 0, nn: 62 }, 0);
    cpu.execute(Instruction::SetVx { x: 1, nn: 30 }, 0);
    cpu.execute(Instruction::SetI { nnn: 0 }, 0);
    cpu.execute(Instruction::Draw { x: 0, y: 1, n: 5 }, 0);
    let g = cpu.get_display();
    assert_eq!(g[30][62], 1);
    assert_eq!(g[30][63], 1);
    assert_eq!(g[31][62], 1);
    assert_eq!(g[0][0], 0);
    assert_eq!(g[30][0], 0);
    assert_eq!(lit_pixels(&cpu), 3);
}

#[test]
fn draw_wraps_when_not_clipping() {
    let mut cpu = build_cpu_with_quirks(true, false);
    cpu.execute(Instruction::SetVx { x: 0, nn: 62 }, 0);
    cpu.execute(Instruction::SetVx { x: 1, nn: 30 }, 0);
    cpu.execute(Instruction::SetI { nnn: 0 }, 0);
    cpu.execute(Instruction::Draw { x: 0, y: 1, n: 5 }, 0);
    let g = cpu.get_display();
    assert_eq!(g[30][62], 1);
    assert_eq!(g[30][1], 1);
    assert_eq!(g[30][2], 0);
    assert_eq!(g[0][62], 1);
    assert_eq!(g[2][1], 1);
    assert_eq!(lit_pixels(&cpu), 14);
}

#[test]
fn draw_position_wraps_modulo_screen() {
    let mut cpu = build_cpu();
    cpu.execute(Instruction::SetVx { x: 0, nn: 64 + 3 }, 0);
    cpu.execute(Instruction::SetVx { x: 1, nn: 32 + 2 }, 0);
    cpu.execute(Instruction::SetI { nnn: 0 }, 0);
    cpu.execute(Instruction::Draw { x: 0, y: 1, n: 1 }, 0);
    let g = cpu.get_display();
    assert_eq!(g[2][3..8], [1, 1, 1, 1, 0]);
}

#[test]
fn display_wait_holds_cycles_until_frame_end() {
    let mut cpu = cpu_with_rom(&[0xD0, 0x01, 0x60, 0x09]);
    cpu.cycle();
    assert_eq!(cpu.program_counter(), 0x202);
    cpu.cycle();
    cpu.cycle();
    assert_eq!(cpu.program_counter(), 0x202);
    assert_eq!(cpu.v_register(0), 0);
    cpu.end_frame();
    cpu.cycle();
    assert_eq!(cpu.program_counter(), 0x204);
    assert_eq!(cpu.v_register(0), 9);
}

#[test]
fn without_display_wait_cycles_continue_after_draw() {
    let mut cpu = build_cpu_with_quirks(false, true);
    cpu.load_rom(&[0xD0, 0x01, 0x60, 0x09]).unwrap();
    cpu.cycle();
    cpu.cycle();
    assert_eq!(cpu.program_counter(), 0x204);
    assert_eq!(cpu.v_register(0), 9);
}

#[test]
fn wait_for_key_blocks_until_release() {
    let mut cpu = cpu_with_rom(&[0xF3, 0x0A]);
    for _ in 0..10 {
        cpu.cycle();
        assert_eq!(cpu.program_counter(), 0x200);
    }
    cpu.key_press(7);
    for _ in 0..5 {
        cpu.cycle();
        assert_eq!(cpu.program_counter(), 0x200);
    }
    assert_eq!(cpu.v_register(3), 0);
    cpu.key_release(7);
    cpu.cycle();
    assert_eq!(cpu.v_register(3), 7);
    assert_eq!(cpu.program_counter(), 0x202);
}

#[test]
fn wait_for_key_takes_lowest_held_key() {
    let mut cpu = cpu_with_rom(&[0xF0, 0x0A]);
    cpu.key_press(0xC);
    cpu.key_press(0x5);
    cpu.cycle();
    cpu.key_release(0xC);
    cpu.cycle();
    assert_eq!(cpu.program_counter(), 0x200);
    cpu.key_release(0x5);
    cpu.cycle();
    assert_eq!(cpu.v_register(0), 5);
    assert_eq!(cpu.program_counter(), 0x202);
}

#[test]
fn timers_stop_at_zero() {
    let mut cpu = cpu_with_rom(&[0x60, 60, 0xF0, 0x15, 0x61, 3, 0xF1, 0x18, 0xF2, 0x07]);
    for _ in 0..4 {
        cpu.cycle();
    }
    assert_eq!(cpu.delay_timer(), 60);
    assert_eq!(cpu.sound_timer(), 3);
    for k in 0..120 {
        cpu.decrement_timers();
        assert_eq!(cpu.delay_timer(), 60u8.saturating_sub(k + 1));
    }
    assert_eq!(cpu.delay_timer(), 0);
    assert_eq!(cpu.sound_timer(), 0);
    cpu.cycle();
    assert_eq!(cpu.v_register(2), 0);
}

#[test]
fn timers_tick_only_after_interval() {
    let mut cpu = cpu_with_rom(&[0x60, 2, 0xF0, 0x15]);
    cpu.cycle();
    cpu.cycle();
    assert!(!cpu.update_timers(16_666));
    assert_eq!(cpu.delay_timer(), 2);
    assert!(cpu.update_timers(16_667));
    assert_eq!(cpu.delay_timer(), 1);
    assert!(cpu.update_timers(40_000));
    assert!(cpu.update_timers(40_000));
    assert_eq!(cpu.delay_timer(), 0);
}

#[test]
fn delay_timer_reads_into_register() {
    let mut cpu = cpu_with_rom(&[0x60, 42, 0xF0, 0x15, 0xF5, 0x07]);
    for _ in 0..3 {
        cpu.cycle();
    }
    assert_eq!(cpu.v_register(5), 42);
}

#[test]
fn font_is_loaded_at_start() {
    let cpu = build_cpu();
    assert_eq!(cpu.program_counter(), 0x200);
    let zero: Vec<u8> = (0..5).map(|a| cpu.read_memory(a)).collect();
    assert_eq!(zero, vec![0xF0, 0x90, 0x90, 0x90, 0xF0]);
    let f: Vec<u8> = (75..80).map(|a| cpu.read_memory(a)).collect();
    assert_eq!(f, vec![0xF0, 0x80, 0xF0, 0x80, 0x80]);
    assert_eq!(cpu.read_memory(80), 0);
}

#[test]
fn sprite_address_is_digit_times_five() {
    let mut cpu = cpu_with_rom(&[0x60, 0x0A, 0xF0, 0x29, 0x61, 0xFF, 0xF1, 0x29]);
    cpu.cycle();
    cpu.cycle();
    assert_eq!(cpu.index_register(), 50);
    cpu.cycle();
    cpu.cycle();
    assert_eq!(cpu.index_register(), 1275);
}

#[test]
fn bcd_stores_three_digits() {
    let mut cpu = cpu_with_rom(&[0x60, 254, 0xA3, 0x00, 0xF0, 0x33]);
    for _ in 0..3 {
        cpu.cycle();
    }
    assert_eq!(cpu.read_memory(0x300), 2);
    assert_eq!(cpu.read_memory(0x301), 5);
    assert_eq!(cpu.read_memory(0x302), 4);
    assert_eq!(cpu.index_register(), 0x300);
}

#[test]
fn store_and_load_registers_advance_index() {
    let mut cpu = build_cpu();
    for r in 0..4u8 {
        cpu.execute(Instruction::SetVx { x: r, nn: 10 + r }, 0);
    }
    cpu.execute(Instruction::SetI { nnn: 0x400 }, 0);
    cpu.execute(Instruction::StoreRegisters { x: 3 }, 0);
    assert_eq!(cpu.index_register(), 0x404);
    for a in 0..4u16 {
        assert_eq!(cpu.read_memory(0x400 + a), 10 + a as u8);
    }
    assert_eq!(cpu.read_memory(0x404), 0);

    for r in 0..4u8 {
        cpu.execute(Instruction::SetVx { x: r, nn: 0 }, 0);
    }
    cpu.execute(Instruction::SetI { nnn: 0x401 }, 0);
    cpu.execute(Instruction::LoadRegisters { x: 1 }, 0);
    assert_eq!(cpu.index_register(), 0x403);
    assert_eq!(cpu.v_register(0), 11);
    assert_eq!(cpu.v_register(1), 12);
    assert_eq!(cpu.v_register(2), 0);
}

#[test]
fn store_registers_wraps_round_memory() {
    let mut cpu = build_cpu();
    cpu.execute(Instruction::SetVx { x: 0, nn: 0xAA }, 0);
    cpu.execute(Instruction::SetVx { x: 1, nn: 0xBB }, 0);
    cpu.execute(Instruction::SetI { nnn: 0xFFF }, 0);
    cpu.execute(Instruction::StoreRegisters { x: 1 }, 0);
    assert_eq!(cpu.read_memory(0xFFF), 0xAA);
    assert_eq!(cpu.read_memory(0), 0xBB);
    assert_eq!(cpu.index_register(), 0x1001);
}

#[test]
fn add_to_index_wraps_at_sixteen_bits() {
    let mut cpu = build_cpu();
    cpu.execute(Instruction::SetI { nnn: 0xFFF }, 0);
    cpu.execute(Instruction::SetVx { x: 4, nn: 0x20 }, 0);
    cpu.execute(Instruction::AddVxToI { x: 4 }, 0);
    assert_eq!(cpu.index_register(), 0x101F);
    assert_eq!(cpu.v_register(0xF), 0);
}

#[test]
fn skips_advance_by_four_when_taken() {
    let mut cpu = build_cpu();
    cpu.execute(Instruction::SetVx { x: 0, nn: 7 }, 0);
    cpu.execute(Instruction::SetVx { x: 1, nn: 7 }, 0);
    let pc = cpu.program_counter();
    cpu.execute(Instruction::SkipIfVxEquals { x: 0, nn: 7 }, 0);
    assert_eq!(cpu.program_counter(), pc + 4);
    cpu.execute(Instruction::SkipIfVxEquals { x: 0, nn: 8 }, 0);
    assert_eq!(cpu.program_counter(), pc + 6);
    cpu.execute(Instruction::SkipIfVxNotEquals { x: 0, nn: 8 }, 0);
    assert_eq!(cpu.program_counter(), pc + 10);
    cpu.execute(Instruction::SkipIfVxNotEquals { x: 0, nn: 7 }, 0);
    assert_eq!(cpu.program_counter(), pc + 12);
    cpu.execute(Instruction::SkipIfVxEqualsVy { x: 0, y: 1 }, 0);
    assert_eq!(cpu.program_counter(), pc + 16);
    cpu.execute(Instruction::SkipIfVxNotEqualsVy { x: 0, y: 1 }, 0);
    assert_eq!(cpu.program_counter(), pc + 18);
}

#[test]
fn key_skips_read_keypad() {
    let mut cpu = build_cpu();
    cpu.execute(Instruction::SetVx { x: 0, nn: 0xB }, 0);
    let pc = cpu.program_counter();
    cpu.execute(Instruction::SkipIfKeyPressed { x: 0 }, 0);
    assert_eq!(cpu.program_counter(), pc + 2);
    cpu.execute(Instruction::SkipIfKeyNotPressed { x: 0 }, 0);
    assert_eq!(cpu.program_counter(), pc + 6);
    cpu.key_press(0xB);
    assert!(cpu.is_key_pressed(0xB));
    cpu.execute(Instruction::SkipIfKeyPressed { x: 0 }, 0);
    assert_eq!(cpu.program_counter(), pc + 10);
    cpu.execute(Instruction::SkipIfKeyNotPressed { x: 0 }, 0);
    assert_eq!(cpu.program_counter(), pc + 12);
    cpu.key_release(0xB);
    assert!(!cpu.is_key_pressed(0xB));
}

#[test]
fn key_outside_keypad_is_never_pressed() {
    let mut cpu = build_cpu();
    cpu.execute(Instruction::SetVx { x: 0, nn: 0x20 }, 0);
    let pc = cpu.program_counter();
    cpu.execute(Instruction::SkipIfKeyPressed { x: 0 }, 0);
    assert_eq!(cpu.program_counter(), pc + 2);
    cpu.execute(Instruction::SkipIfKeyNotPressed { x: 0 }, 0);
    assert_eq!(cpu.program_counter(), pc + 6);
}

#[test]
fn call_and_return() {
    let mut cpu = cpu_with_rom(&[0x23, 0x00]);
    cpu.cycle();
    assert_eq!(cpu.program_counter(), 0x300);
    assert_eq!(cpu.stack_depth(), 1);
    cpu.execute(Instruction::Return, 0);
    assert_eq!(cpu.program_counter(), 0x202);
    assert_eq!(cpu.stack_depth(), 0);
}

#[test]
fn call_on_full_stack_is_skipped() {
    let mut cpu = build_cpu();
    for _ in 0..16 {
        cpu.execute(Instruction::Call { nnn: 0x400 }, 0);
    }
    assert_eq!(cpu.stack_depth(), 16);
    cpu.execute(Instruction::Call { nnn: 0x600 }, 0);
    assert_eq!(cpu.stack_depth(), 16);
    assert_eq!(cpu.program_counter(), 0x402);
}

#[test]
fn return_on_empty_stack_is_skipped() {
    let mut cpu = build_cpu();
    cpu.execute(Instruction::Return, 0);
    assert_eq!(cpu.stack_depth(), 0);
    assert_eq!(cpu.program_counter(), 0x202);
}

#[test]
fn jumps_set_program_counter() {
    let mut cpu = cpu_with_rom(&[0x14, 0x56]);
    cpu.cycle();
    assert_eq!(cpu.program_counter(), 0x456);
    cpu.execute(Instruction::SetVx { x: 0, nn: 0x10 }, 0);
    cpu.execute(Instruction::JumpV0Plus { nnn: 0x300 }, 0);
    assert_eq!(cpu.program_counter(), 0x310);
    cpu.execute(Instruction::SetVx { x: 0, nn: 0xFF }, 0);
    cpu.execute(Instruction::JumpV0Plus { nnn: 0xFFF }, 0);
    assert_eq!(cpu.program_counter(), 0x10FE);
}

#[test]
fn set_vx_to_vy_copies() {
    let mut cpu = cpu_with_rom(&[0x6A, 0x33, 0x8B, 0xA0]);
    cpu.cycle();
    cpu.cycle();
    assert_eq!(cpu.v_register(0xB), 0x33);
}

#[test]
fn random_is_masked() {
    let mut cpu = build_cpu();
    cpu.execute(Instruction::Random { x: 2, nn: 0x0F }, 0xAB);
    assert_eq!(cpu.v_register(2), 0x0B);
    let mut cpu = cpu_with_rom(&[0xC0, 0x00, 0xC1, 0x0F]);
    cpu.execute(Instruction::SetVx { x: 0, nn: 0xFF }, 0);
    cpu.execute(Instruction::Jump { nnn: 0x200 }, 0);
    cpu.cycle();
    assert_eq!(cpu.v_register(0), 0);
    cpu.cycle();
    assert_eq!(cpu.v_register(1) & 0xF0, 0);
    assert_eq!(cpu.program_counter(), 0x204);
}

#[test]
fn unknown_opcode_changes_nothing() {
    let mut cpu = cpu_with_rom(&[0x50, 0x01]);
    cpu.cycle();
    assert_eq!(cpu.program_counter(), 0x200);
    cpu.execute_instruction(0xFFFF);
    assert_eq!(cpu.program_counter(), 0x200);
}

#[test]
fn fetch_reads_big_endian_word() {
    let cpu = cpu_with_rom(&[0xAB, 0xCD]);
    assert_eq!(cpu.fetch_instruction(), 0xABCD);
}

#[test]
fn execute_instruction_decodes_word() {
    let mut cpu = build_cpu();
    cpu.execute_instruction(0x6A42);
    assert_eq!(cpu.v_register(0xA), 0x42);
    assert_eq!(cpu.program_counter(), 0x202);
}

#[test]
fn rom_is_copied_to_program_origin() {
    let mut cpu = build_cpu();
    assert_eq!(cpu.load_rom(&[1, 2, 3]), Ok(()));
    assert_eq!(cpu.read_memory(0x1FF), 0);
    assert_eq!(cpu.read_memory(0x200), 1);
    assert_eq!(cpu.read_memory(0x202), 3);
    assert_eq!(cpu.read_memory(0x203), 0);
}

#[test]
fn largest_rom_fits() {
    let mut cpu = build_cpu();
    let rom = vec![7u8; MAX_ROM_SIZE];
    assert_eq!(cpu.load_rom(&rom), Ok(()));
    assert_eq!(cpu.read_memory(0xFFF), 7);
}

#[test]
fn oversized_rom_is_refused() {
    let mut cpu = build_cpu();
    let rom = vec![7u8; MAX_ROM_SIZE + 1];
    assert_eq!(
        cpu.load_rom(&rom),
        Err(RomError::TooLarge { size: MAX_ROM_SIZE + 1 })
    );
    assert_eq!(cpu.read_memory(0x200), 0);
}
