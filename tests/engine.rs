use e_chip::decode::decode;
use e_chip::memory::{ProgramTooLarge, FONT};
use e_chip::Chip8;

fn run(chip: &mut Chip8, opcodes: &[u16]) {
    for &op in opcodes {
        chip.execute_instruction_with(op, 0);
    }
}

#[test]
fn decode_splits_fields() {
    let o = decode(0xD12F);
    assert_eq!(o.class, 0xD);
    assert_eq!(o.x, 1);
    assert_eq!(o.y, 2);
    assert_eq!(o.nibble, 0xF);
    assert_eq!(o.byte, 0x2F);
    assert_eq!(o.addr, 0x12F);
    assert_eq!(decode(0xD12F), decode(0xD12F));
    assert_ne!(decode(0xD12F), decode(0xD12E));
}

#[test]
fn load_program_reads_back() {
    let mut chip = Chip8::chip8();
    let program = [0x60u8, 0x05, 0x70, 0x01, 0xAB];
    assert_eq!(chip.load_program(&program), Ok(()));
    for (k, b) in program.iter().enumerate() {
        assert_eq!(chip.read_byte(0x200 + k as u16), *b);
    }
    for k in 0..80u16 {
        assert_eq!(chip.read_byte(k), FONT[k as usize]);
    }
    assert_eq!(chip.read_byte(80), 0);
    assert_eq!(chip.read_byte(0x205), 0);
    assert_eq!(chip.get_current_opcode(), 0x6005);
}

#[test]
fn load_program_too_large_is_refused() {
    let mut chip = Chip8::chip8();
    let program = vec![0x11u8; 3585];
    assert_eq!(
        chip.load_program(&program),
        Err(ProgramTooLarge { size: 3585, capacity: 3584 })
    );
    assert_eq!(chip.read_byte(0x200), 0);
    let fits = vec![0x22u8; 3584];
    assert_eq!(chip.load_program(&fits), Ok(()));
    assert_eq!(chip.read_byte(0xFFF), 0x22);
}

#[test]
fn reset_then_load_matches_fresh() {
    let program = [0x60u8, 0x07, 0xA2, 0x10, 0x22, 0x08, 0x00, 0x00, 0x00, 0xEE];
    let mut used = Chip8::chip8();
    used.load_program(&program).unwrap();
    used.start();
    for _ in 0..4 {
        used.execute_cycle_with(0);
    }
    used.set_keys([true; 16]);
    used.tick_frame();
    used.reset();
    used.load_program(&program).unwrap();
    let mut fresh = Chip8::chip8();
    fresh.load_program(&program).unwrap();
    assert_eq!(used.get_program_counter(), fresh.get_program_counter());
    assert_eq!(used.get_i(), fresh.get_i());
    assert_eq!(used.get_stack_pointer(), fresh.get_stack_pointer());
    assert_eq!(used.is_running(), fresh.is_running());
    assert_eq!(used.frame_cycle(), fresh.frame_cycle());
    for r in 0..16 {
        assert_eq!(used.get_register(r), fresh.get_register(r));
        assert_eq!(used.get_key_state(r), fresh.get_key_state(r));
    }
    for k in 0..used.get_stack_size() {
        assert_eq!(used.read_stack(k), fresh.read_stack(k));
    }
    for a in 0..4096u16 {
        assert_eq!(used.read_byte(a), fresh.read_byte(a));
    }
    assert_eq!(used.pixels(), fresh.pixels());
}

#[test]
fn add_with_carry_sets_flag() {
    let mut chip = Chip8::chip8();
    run(&mut chip, &[0x60FF, 0x6101, 0x8014]);
    assert_eq!(chip.get_register(0), 0x00);
    assert_eq!(chip.get_register(0xF), 1);
}

#[test]
fn add_without_carry_clears_flag() {
    let mut chip = Chip8::chip8();
    run(&mut chip, &[0x6F07, 0x6001, 0x6101, 0x8014]);
    assert_eq!(chip.get_register(0), 0x02);
    assert_eq!(chip.get_register(0xF), 0);
}

#[test]
fn sub_with_borrow_clears_flag() {
    let mut chip = Chip8::chip8();
    run(&mut chip, &[0x6001, 0x6102, 0x8015]);
    assert_eq!(chip.get_register(0), 0xFF);
    assert_eq!(chip.get_register(0xF), 0);
}

#[test]
fn sub_without_borrow_sets_flag() {
    let mut chip = Chip8::chip8();
    run(&mut chip, &[0x6002, 0x6101, 0x8015]);
    assert_eq!(chip.get_register(0), 0x01);
    assert_eq!(chip.get_register(0xF), 1);
}

#[test]
fn reverse_sub_and_shifts() {
    let mut chip = Chip8::chip8();
    run(&mut chip, &[0x6005, 0x6103, 0x8017]);
    assert_eq!(chip.get_register(0), 0xFE);
    assert_eq!(chip.get_register(0xF), 0);
    // Vx = Vy >> 1 without the direct shifting quirk
    run(&mut chip, &[0x6281, 0x8326]);
    assert_eq!(chip.get_register(3), 0x40);
    assert_eq!(chip.get_register(0xF), 1);
    run(&mut chip, &[0x832E]);
    assert_eq!(chip.get_register(3), 0x02);
    assert_eq!(chip.get_register(0xF), 1);
}

#[test]
fn bitwise_resets_flag_under_vip_quirks() {
    let mut chip = Chip8::chip8();
    run(&mut chip, &[0x6F09, 0x600C, 0x610A, 0x8011]);
    assert_eq!(chip.get_register(0), 0x0E);
    assert_eq!(chip.get_register(0xF), 0);
    let mut octo = Chip8::chip8();
    octo.quirks = e_chip::Quirks::octo_chip();
    run(&mut octo, &[0x6F09, 0x600C, 0x610A, 0x8013]);
    assert_eq!(octo.get_register(0), 0x06);
    assert_eq!(octo.get_register(0xF), 9);
}

fn pixel(chip: &Chip8, x: usize, y: usize) -> bool {
    let width = if chip.is_highres() { 128 } else { 64 };
    chip.pixels()[x + y * width]
}

#[test]
fn draw_twice_restores_and_collides() {
    let mut chip = Chip8::chip8();
    chip.quirks.wait_for_vblank = false;
    // the glyph of 0 at (10, 5)
    run(&mut chip, &[0x600A, 0x6105, 0xA000, 0xD015]);
    assert_eq!(chip.get_register(0xF), 0);
    assert!(pixel(&chip, 10, 5));
    assert!(!pixel(&chip, 10 + 1, 5 + 1));
    run(&mut chip, &[0xD015]);
    assert_eq!(chip.get_register(0xF), 1);
    assert!(chip.pixels().iter().all(|p| !p));
    run(&mut chip, &[0xD015, 0xD015]);
    assert_eq!(chip.get_register(0xF), 1);
    assert!(chip.pixels().iter().all(|p| !p));
}

#[test]
fn disjoint_sprites_do_not_collide() {
    let mut chip = Chip8::chip8();
    chip.quirks.wait_for_vblank = false;
    run(&mut chip, &[0x6000, 0x6100, 0xA000, 0xD015, 0x6020, 0xD015]);
    assert_eq!(chip.get_register(0xF), 0);
    assert!(pixel(&chip, 0, 0));
    assert!(pixel(&chip, 32, 0));
}

#[test]
fn edge_clip_stops_at_right_edge() {
    let mut chip = Chip8::chip8();
    chip.quirks.wait_for_vblank = false;
    chip.quirks.edge_clipping = true;
    // a full row of 8 pixels stored at 0x300
    run(&mut chip, &[0x60FF, 0xA300, 0xF055, 0x603C, 0x6100, 0xA300, 0xD011]);
    for x in 60..64 {
        assert!(pixel(&chip, x, 0));
    }
    for x in 0..4 {
        assert!(!pixel(&chip, x, 0));
    }
    assert_eq!(chip.pixels().iter().filter(|p| **p).count(), 4);
}

#[test]
fn edge_wrap_continues_at_left() {
    let mut chip = Chip8::chip8();
    chip.quirks.wait_for_vblank = false;
    chip.quirks.edge_clipping = false;
    run(&mut chip, &[0x60FF, 0xA300, 0xF055, 0x603C, 0x6100, 0xA300, 0xD011]);
    for x in 60..64 {
        assert!(pixel(&chip, x, 0));
    }
    for x in 0..4 {
        assert!(pixel(&chip, x, 0));
    }
    assert!(!pixel(&chip, 4, 0));
    assert_eq!(chip.pixels().iter().filter(|p| **p).count(), 8);
}

#[test]
fn draw_waits_for_vblank() {
    let mut chip = Chip8::chip8();
    run(&mut chip, &[0xA000]);
    let pc = chip.get_program_counter();
    run(&mut chip, &[0xD015]);
    assert_eq!(chip.get_program_counter(), pc + 2);
    run(&mut chip, &[0xD015]);
    assert_eq!(chip.get_program_counter(), pc + 2);
    chip.tick_frame();
    run(&mut chip, &[0xD015]);
    assert_eq!(chip.get_program_counter(), pc + 4);
    assert!(chip.pixels().iter().all(|p| !p));
}

#[test]
fn key_wait_suspends_until_key() {
    let mut chip = Chip8::chip8();
    chip.load_program(&[0xF3, 0x0A, 0x73, 0x01]).unwrap();
    chip.start();
    chip.execute_cycle_with(0);
    assert!(chip.is_waiting_for_key());
    assert_eq!(chip.get_key_destination_register(), 3);
    assert_eq!(chip.get_program_counter(), 0x202);
    for _ in 0..50 {
        chip.execute_cycle_with(0);
        assert_eq!(chip.get_program_counter(), 0x202);
        assert_eq!(chip.get_register(3), 0);
        assert!(chip.is_waiting_for_key());
    }
    chip.save_awaited_key(0xB);
    assert!(!chip.is_waiting_for_key());
    assert_eq!(chip.get_register(3), 0xB);
    chip.execute_cycle_with(0);
    assert_eq!(chip.get_program_counter(), 0x204);
    assert_eq!(chip.get_register(3), 0xC);
}

#[test]
fn extended_opcode_halts_on_baseline() {
    let mut chip = Chip8::chip8();
    chip.start();
    run(&mut chip, &[0x00FF]);
    assert!(!chip.is_running());
    let message = chip.halt_message.clone().unwrap();
    assert!(message.contains("00FF"));
    assert_eq!(
        message,
        "Machine code routines are not supported: 00FF. Try a different CHIP-8 variant."
    );
    let mut chip = Chip8::chip8();
    chip.start();
    run(&mut chip, &[0xF175]);
    assert!(!chip.is_running());
    assert_eq!(chip.halt_message.clone().unwrap(), "Illegal instruction: F175");
    let mut chip = Chip8::chip8();
    run(&mut chip, &[0x5121]);
    assert_eq!(chip.halt_message.clone().unwrap(), "Illegal instruction: 5121");
}

#[test]
fn halt_message_stays_until_reset() {
    let mut chip = Chip8::chip8();
    chip.load_program(&[0xE1, 0xFF, 0x60, 0x01]).unwrap();
    chip.start();
    chip.execute_cycle_with(0);
    assert_eq!(chip.halt_message().clone().unwrap(), "Illegal instruction: E1FF");
    assert!(!chip.is_running());
    chip.start();
    chip.execute_cycle_with(0);
    assert_eq!(chip.get_register(0), 1);
    assert_eq!(chip.halt_message().clone().unwrap(), "Illegal instruction: E1FF");
    chip.reset();
    assert!(chip.halt_message().is_none());
}

#[test]
fn setters_replace_settings() {
    let mut chip = Chip8::chip8();
    chip.set_quirks(e_chip::Quirks::super_chip1_1());
    assert_eq!(chip.quirks, e_chip::Quirks::super_chip1_1());
    chip.set_sound_on(false);
    assert!(!chip.sound_on);
    chip.set_execution_speed(100);
    assert_eq!(chip.execution_speed, 100);
    // with the SUPER-CHIP quirks, Bxnn jumps with offset Vx
    run(&mut chip, &[0x6203, 0xB210]);
    assert_eq!(chip.get_program_counter(), 0x213);
}

#[test]
fn cycle_stops_at_end_of_memory() {
    let mut chip = Chip8::chip8();
    chip.start();
    run(&mut chip, &[0x1FFE]);
    chip.execute_cycle_with(0);
    assert!(!chip.is_running());
    assert_eq!(chip.get_program_counter(), 0xFFE);
    assert_eq!(chip.frame_cycle(), 0);
}

#[test]
fn call_and_return() {
    let mut chip = Chip8::chip8();
    run(&mut chip, &[0x2400]);
    assert_eq!(chip.get_program_counter(), 0x400);
    assert_eq!(chip.get_stack_pointer(), 1);
    assert_eq!(chip.read_stack(0), 0x202);
    run(&mut chip, &[0x00EE]);
    assert_eq!(chip.get_program_counter(), 0x202);
    assert_eq!(chip.get_stack_pointer(), 0);
}

#[test]
fn call_on_full_stack_saturates() {
    let mut chip = Chip8::chip8();
    for _ in 0..13 {
        run(&mut chip, &[0x2300]);
    }
    assert_eq!(chip.get_stack_pointer(), 12);
    assert_eq!(chip.get_program_counter(), 0x300);
    assert_eq!(chip.read_stack(11), 0x302);
    run(&mut chip, &[0x00EE]);
    assert_eq!(chip.get_stack_pointer(), 11);
    assert_eq!(chip.get_program_counter(), 0x302);
}

#[test]
fn skips_and_jumps() {
    let mut chip = Chip8::chip8();
    run(&mut chip, &[0x6042, 0x3042]);
    assert_eq!(chip.get_program_counter(), 0x206);
    run(&mut chip, &[0x4042]);
    assert_eq!(chip.get_program_counter(), 0x208);
    run(&mut chip, &[0x6142, 0x5010]);
    assert_eq!(chip.get_program_counter(), 0x20E);
    run(&mut chip, &[0x9010]);
    assert_eq!(chip.get_program_counter(), 0x210);
    run(&mut chip, &[0x6004, 0xB300]);
    assert_eq!(chip.get_program_counter(), 0x304);
    let mut schip = Chip8::super_chip1_1();
    run(&mut schip, &[0x6004, 0x6210, 0xB200]);
    assert_eq!(schip.get_program_counter(), 0x210);
}

#[test]
fn keys_skip() {
    let mut chip = Chip8::chip8();
    let mut keys = [false; 16];
    keys[0xA] = true;
    chip.set_keys(keys);
    run(&mut chip, &[0x601A, 0xE09E]);
    assert_eq!(chip.get_program_counter(), 0x206);
    run(&mut chip, &[0xE0A1]);
    assert_eq!(chip.get_program_counter(), 0x208);
}

#[test]
fn timers_and_index() {
    let mut chip = Chip8::chip8();
    run(&mut chip, &[0x6003, 0xF015, 0xF018]);
    chip.tick_frame();
    assert_eq!(chip.get_delay(), 2);
    assert_eq!(chip.get_sound(), 2);
    run(&mut chip, &[0xF107]);
    assert_eq!(chip.get_register(1), 2);
    for _ in 0..5 {
        chip.update_timers();
    }
    assert_eq!(chip.get_delay(), 0);
    run(&mut chip, &[0xA100, 0xF01E]);
    assert_eq!(chip.get_i(), 0x103);
    run(&mut chip, &[0x601B, 0xF029]);
    assert_eq!(chip.get_i(), 55);
}

#[test]
fn bcd_and_block_transfer() {
    let mut chip = Chip8::chip8();
    run(&mut chip, &[0x60FE, 0xA300, 0xF033]);
    assert_eq!(chip.read_byte(0x300), 2);
    assert_eq!(chip.read_byte(0x301), 5);
    assert_eq!(chip.read_byte(0x302), 4);
    run(&mut chip, &[0x6011, 0x6122, 0x6233, 0xA400, 0xF255]);
    assert_eq!(chip.read_byte(0x400), 0x11);
    assert_eq!(chip.read_byte(0x402), 0x33);
    assert_eq!(chip.get_i(), 0x403);
    run(&mut chip, &[0xA400, 0x6000, 0x6100, 0xF165]);
    assert_eq!(chip.get_register(0), 0x11);
    assert_eq!(chip.get_register(1), 0x22);
    assert_eq!(chip.get_i(), 0x402);
    let mut schip = Chip8::super_chip1_1();
    run(&mut schip, &[0x6077, 0xA500, 0xF055]);
    assert_eq!(schip.get_i(), 0x500);
}

#[test]
fn out_of_bounds_transfer_halts() {
    let mut chip = Chip8::chip8();
    chip.start();
    run(&mut chip, &[0xAFFE, 0xF255]);
    assert!(!chip.is_running());
    assert_eq!(chip.halt_message.clone().unwrap(), "Memory access out of bounds: F255");
}

#[test]
fn random_byte_is_masked() {
    let mut chip = Chip8::chip8();
    chip.execute_instruction_with(0xC00F, 0xAB);
    assert_eq!(chip.get_register(0), 0x0B);
    chip.execute_instruction(0xC100);
    assert_eq!(chip.get_register(1), 0);
    chip.execute_instruction(0xC20F);
    assert!(chip.get_register(2) <= 0x0F);
}

#[test]
fn superchip_screen_and_flags() {
    let mut chip = Chip8::super_chip1_1();
    assert_eq!(chip.get_stack_size(), 16);
    assert_eq!(chip.pixels().len(), 8192);
    run(&mut chip, &[0x00FF]);
    assert!(chip.is_highres());
    run(&mut chip, &[0x6001, 0x6102, 0xF175]);
    assert_eq!(chip.get_persistent_flags(), [1, 2, 0, 0, 0, 0, 0, 0]);
    assert_eq!(chip.take_pending_flags(), Some([1, 2, 0, 0, 0, 0, 0, 0]));
    assert_eq!(chip.take_pending_flags(), None);
    run(&mut chip, &[0x6000, 0x6100, 0xF185]);
    assert_eq!(chip.get_register(1), 2);
    chip.clear_persistent_flags();
    assert_eq!(chip.get_persistent_flags(), [0; 8]);
    assert_eq!(chip.take_pending_flags(), Some([0; 8]));
    run(&mut chip, &[0xF875]);
    assert!(chip.halt_message.is_some());
}

#[test]
fn superchip_wide_sprite_and_scroll() {
    let mut chip = Chip8::super_chip1_1();
    run(&mut chip, &[0x00FF, 0x60FF, 0x61FF, 0xA300, 0xF155, 0x6000, 0x6100, 0xA300, 0xD010]);
    assert_eq!(chip.get_register(0xF), 0);
    for x in 0..16 {
        assert!(pixel(&chip, x, 0));
    }
    assert!(!pixel(&chip, 16, 0));
    assert!(!pixel(&chip, 0, 1));
    run(&mut chip, &[0x00FB]);
    assert!(!pixel(&chip, 0, 0));
    assert!(pixel(&chip, 4, 0));
    assert!(pixel(&chip, 19, 0));
    run(&mut chip, &[0x00C3]);
    assert!(!pixel(&chip, 4, 0));
    assert!(pixel(&chip, 4, 3));
    run(&mut chip, &[0x00FC]);
    assert!(pixel(&chip, 0, 3));
    assert!(pixel(&chip, 15, 3));
    assert!(!pixel(&chip, 16, 3));
    run(&mut chip, &[0x00E0]);
    assert!(chip.pixels().iter().all(|p| !p));
}

#[test]
fn exit_instruction_resets() {
    let mut chip = Chip8::super_chip1_1();
    chip.start();
    run(&mut chip, &[0x6005, 0x00FD]);
    assert!(!chip.is_running());
    assert_eq!(chip.get_register(0), 0);
    assert_eq!(chip.get_program_counter(), 0x202);
}
