use e_chip::display::{Display, ScrollDirection};
use e_chip::explain::explain_instruction;
use e_chip::memory::Memory;
use e_chip::message::{illegal, machine_code, out_of_bounds};
use e_chip::{Quirks, Variant};

#[test]
fn quirk_presets() {
    let vip = Quirks::vip_chip();
    assert!(vip.bitwise_reset_vf && !vip.direct_shifting && !vip.save_load_increment);
    assert!(!vip.jump_to_x && vip.wait_for_vblank && vip.edge_clipping && !vip.lowres_scroll);
    let octo = Quirks::octo_chip();
    assert_eq!(octo, Quirks::default());
    let schip = Quirks::super_chip1_1();
    assert!(!schip.bitwise_reset_vf && schip.direct_shifting && schip.save_load_increment);
    assert!(schip.jump_to_x && !schip.wait_for_vblank && schip.edge_clipping);
}

#[test]
fn variant_support() {
    assert!(!Variant::CHIP8.supports_schip());
    assert!(Variant::SCHIP11.supports_schip());
    assert!(Variant::XOCHIP.supports_schip());
}

#[test]
fn memory_font_and_opcode() {
    let mut mem = Memory::new();
    assert_eq!(mem.ram[0], 0xF0);
    assert_eq!(mem.ram[79], 0x80);
    assert_eq!(mem.ram[80], 0);
    mem.load_program(&[0x12, 0x34]).unwrap();
    assert_eq!(mem.read_opcode(0x200), 0x1234);
    mem.reset();
    assert_eq!(mem.ram[0x200], 0);
    assert_eq!(mem.ram[1], 0x90);
}

#[test]
fn display_scroll_shifts_rows() {
    let mut d = Display::small();
    d.pixels[0] = true;
    d.pixels[63] = true;
    d.scroll(ScrollDirection::Right, 4, false, false);
    assert!(d.pixels[4]);
    assert!(!d.pixels[0]);
    assert!(!d.pixels[63]);
    d.scroll(ScrollDirection::Left, 2, false, false);
    assert!(d.pixels[2]);
    d.scroll(ScrollDirection::Down, 1, false, false);
    assert!(d.pixels[64 + 2]);
    assert!(!d.pixels[2]);
    d.scroll(ScrollDirection::Right, 4, false, true);
    assert!(d.pixels[64 + 4]);
    d.scroll(ScrollDirection::Right, 0, false, false);
    assert!(d.pixels[64 + 4]);
    d.clear();
    assert!(d.pixels.iter().all(|p| !p));
    assert_eq!(Display::big().pixels.len(), 8192);
}

#[test]
fn display_draw_reports_collision() {
    let mut d = Display::small();
    let sprite = vec![0x80u8, 0x40];
    assert!(!d.draw_sprite(&sprite, false, 63, 31, false, false));
    assert!(d.pixels[63 + 31 * 64]);
    assert!(d.pixels[0]);
    assert!(d.draw_sprite(&sprite, false, 63, 31, false, false));
    assert!(d.pixels.iter().all(|p| !p));
    assert!(!d.draw_sprite(&sprite, false, 63, 31, false, true));
    assert!(d.pixels[63 + 31 * 64]);
    assert!(!d.pixels[0]);
}

#[test]
fn display_render_scales() {
    let mut d = Display::small();
    d.pixels[1] = true;
    let black = egui::Color32::BLACK;
    let white = egui::Color32::WHITE;
    let img = d.render_pixels(false, black, white);
    assert_eq!(img.len(), 640 * 320);
    assert_eq!(img[9], black);
    assert_eq!(img[10], white);
    assert_eq!(img[19 + 9 * 640], white);
    assert_eq!(img[20], black);
    let image = d.render(false, black, white);
    assert_eq!(image.size, [640, 320]);
    assert_eq!(image.pixels, img);
}

#[test]
fn explain_reads_patterns() {
    let vip = Quirks::vip_chip();
    assert_eq!(explain_instruction(0x3124, &vip, &Variant::CHIP8), ("3xnn", "Skip if Vx == nn"));
    assert_eq!(
        explain_instruction(0x8126, &vip, &Variant::CHIP8),
        ("8xy6", "Vx = Vy >> 1 (VF = shifted bit)")
    );
    assert_eq!(
        explain_instruction(0x00FF, &vip, &Variant::CHIP8),
        ("0nnn", "Machine code routine")
    );
    assert_eq!(
        explain_instruction(0x00FF, &vip, &Variant::SCHIP11),
        ("00FF", "Enable highres mode")
    );
    assert_eq!(explain_instruction(0xD120, &vip, &Variant::SCHIP11).0, "Dxy0");
    assert_eq!(explain_instruction(0xE1FF, &vip, &Variant::CHIP8).0, "????");
}

#[test]
fn halt_messages() {
    assert_eq!(illegal(0xABCD), "Illegal instruction: ABCD");
    assert_eq!(out_of_bounds(0x0012), "Memory access out of bounds: 0012");
    assert_eq!(
        machine_code(0x0123),
        "Machine code routines are not supported: 0123. Try a different CHIP-8 variant."
    );
}
