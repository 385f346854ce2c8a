use vstd::prelude::*;
use crate::quirks::{Quirks, Variant};

verus! {

/// The pattern and meaning of an instruction word, as read under the given
/// quirks and variant.
pub open spec fn explanation(opcode: u16, quirks: Quirks, variant: Variant) -> (Seq<char>, Seq<char>) {
    let class = opcode >> 12;
    let low = opcode & 0x000F;
    let byte = opcode & 0x00FF;
    let schip = variant.spec_supports_schip();
    if class == 0x0 {
        if opcode & 0xFFF0 == 0x00C0 {
            ("00Cn"@, "Scroll down by n pixels"@)
        } else if opcode == 0x0000 {
            ("0000"@, "Empty (Stops emulator)"@)
        } else if opcode == 0x00E0 {
            ("00E0"@, "Clear screen"@)
        } else if opcode == 0x00EE {
            ("00EE"@, "Return from subroutine"@)
        } else if opcode == 0x00FB && schip {
            ("00FB"@, "Scroll right by 4 pixels"@)
        } else if opcode == 0x00FC && schip {
            ("00FC"@, "Scroll left by 4 pixels"@)
        } else if opcode == 0x00FD && schip {
            ("00FD"@, "Exit the interpreter"@)
        } else if opcode == 0x00FE && schip {
            ("00FE"@, "Disable highres mode"@)
        } else if opcode == 0x00FF && schip {
            ("00FF"@, "Enable highres mode"@)
        } else {
            ("0nnn"@, "Machine code routine"@)
        }
    } else if class == 0x1 {
        ("1nnn"@, "Jump to nnn"@)
    } else if class == 0x2 {
        ("2nnn"@, "Call subroutine at nnn"@)
    } else if class == 0x3 {
        ("3xnn"@, "Skip if Vx == nn"@)
    } else if class == 0x4 {
        ("4xnn"@, "Skip if Vx != nn"@)
    } else if class == 0x5 {
        ("5xy0"@, "Skip if Vx == Vy"@)
    } else if class == 0x6 {
        ("6xnn"@, "Vx = nn"@)
    } else if class == 0x7 {
        ("7xnn"@, "Vx = Vx + nn"@)
    } else if class == 0x8 {
        if low == 0x0 {
            ("8xy0"@, "Vx = Vy"@)
        } else if low == 0x1 && quirks.bitwise_reset_vf {
            ("8xy1"@, "Vx = Vx OR Vy (VF = 0)"@)
        } else if low == 0x1 {
            ("8xy1"@, "Vx = Vx OR Vy"@)
        } else if low == 0x2 && quirks.bitwise_reset_vf {
            ("8xy2"@, "Vx = Vx AND Vy (VF = 0)"@)
        } else if low == 0x2 {
            ("8xy2"@, "Vx = Vx AND Vy"@)
        } else if low == 0x3 && quirks.bitwise_reset_vf {
            ("8xy3"@, "Vx = Vx XOR Vy (VF = 0)"@)
        } else if low == 0x3 {
            ("8xy3"@, "Vx = Vx XOR Vy"@)
        } else if low == 0x4 {
            ("8xy4"@, "Vx = Vx + Vy (VF = overflow?)"@)
        } else if low == 0x5 {
            ("8xy5"@, "Vx = Vx - Vy (VF = no underflow?)"@)
        } else if low == 0x6 && quirks.direct_shifting {
            ("8xy6"@, "Vx = Vx >> 1 (VF = shifted bit)"@)
        } else if low == 0x6 {
            ("8xy6"@, "Vx = Vy >> 1 (VF = shifted bit)"@)
        } else if low == 0x7 {
            ("8xy7"@, "Vx = Vy - Vx (VF = no underflow?)"@)
        } else if low == 0xE && quirks.direct_shifting {
            ("8xyE"@, "Vx = Vx << 1 (VF = shifted bit)"@)
        } else if low == 0xE {
            ("8xyE"@, "Vx = Vy << 1 (VF = shifted bit)"@)
        } else {
            ("????"@, "Illegal instruction"@)
        }
    } else if class == 0x9 {
        ("9xy0"@, "Skip if Vx != Vy"@)
    } else if class == 0xA {
        ("Annn"@, "I = nnn"@)
    } else if class == 0xB {
        if quirks.jump_to_x {
            ("Bxnn"@, "Jump to nnn + Vx"@)
        } else {
            ("Bnnn"@, "Jump to nnn + V0"@)
        }
    } else if class == 0xC {
        ("Cxnn"@, "Vx = random AND nn"@)
    } else if class == 0xD {
        if schip && low == 0 {
            ("Dxy0"@, "Draw 16x16 sprite at (Vx, Vy)"@)
        } else {
            ("Dxyn"@, "Draw 8xn sprite at (Vx, Vy)"@)
        }
    } else if class == 0xE {
        if byte == 0x9E {
            ("Ex9E"@, "Skip if key code Vx is down"@)
        } else if byte == 0xA1 {
            ("ExA1"@, "Skip if key code Vx is up"@)
        } else {
            ("????"@, "Illegal instruction"@)
        }
    } else if class == 0xF {
        if byte == 0x07 {
            ("Fx07"@, "Vx = delay"@)
        } else if byte == 0x0A {
            ("Fx0A"@, "Wait for key press and save to Vx"@)
        } else if byte == 0x15 {
            ("Fx15"@, "delay = Vx"@)
        } else if byte == 0x18 {
            ("Fx18"@, "sound = Vx"@)
        } else if byte == 0x1E {
            ("Fx1E"@, "I = I + Vx"@)
        } else if byte == 0x29 {
            ("Fx29"@, "I = font for Vx"@)
        } else if byte == 0x30 && schip {
            ("Fx30"@, "I = big font for Vx"@)
        } else if byte == 0x33 {
            ("Fx33"@, "Write Vx as BCD"@)
        } else if byte == 0x55 && quirks.save_load_increment {
            ("Fx55"@, "Write V0 to Vx"@)
        } else if byte == 0x55 {
            ("Fx55"@, "Write V0 to Vx (I = I + x + 1)"@)
        } else if byte == 0x65 && quirks.save_load_increment {
            ("Fx65"@, "Read V0 to Vx"@)
        } else if byte == 0x65 {
            ("Fx65"@, "Read V0 to Vx (I = I + x + 1)"@)
        } else if byte == 0x75 && schip {
            ("Fx75"@, "Save V0 to Vx to persistent flags"@)
        } else if byte == 0x85 && schip {
            ("Fx85"@, "Load V0 to Vx from persistent flags"@)
        } else {
            ("????"@, "Illegal instruction"@)
        }
    } else {
        ("????"@, "Illegal instruction"@)
    }
}

/// Break an instruction word down into a generic pattern and an explanation,
/// taking quirks and variant into account.
///
/// For example, the word `3124` gives `("3xnn", "Skip if Vx == nn")`.
pub fn explain_instruction(opcode: u16, quirks: &Quirks, mode: &Variant) -> (r: (
    &'static str,
    &'static str,
))
    ensures
        (r.0@, r.1@) == explanation(opcode, *quirks, *mode),
{
    let class = opcode >> 12;
    let low = opcode & 0x000F;
    let byte = opcode & 0x00FF;
    let schip = mode.supports_schip();
    if class == 0x0 {
        if opcode & 0xFFF0 == 0x00C0 {
            ("00Cn", "Scroll down by n pixels")
        } else if opcode == 0x0000 {
            ("0000", "Empty (Stops emulator)")
        } else if opcode == 0x00E0 {
            ("00E0", "Clear screen")
        } else if opcode == 0x00EE {
            ("00EE", "Return from subroutine")
        } else if opcode == 0x00FB && schip {
            ("00FB", "Scroll right by 4 pixels")
        } else if opcode == 0x00FC && schip {
            ("00FC", "Scroll left by 4 pixels")
        } else if opcode == 0x00FD && schip {
            ("00FD", "Exit the interpreter")
        } else if opcode == 0x00FE && schip {
            ("00FE", "Disable highres mode")
        } else if opcode == 0x00FF && schip {
            ("00FF", "Enable highres mode")
        } else {
            ("0nnn", "Machine code routine")
        }
    } else if class == 0x1 {
        ("1nnn", "Jump to nnn")
    } else if class == 0x2 {
        ("2nnn", "Call subroutine at nnn")
    } else if class == 0x3 {
        ("3xnn", "Skip if Vx == nn")
    } else if class == 0x4 {
        ("4xnn", "Skip if Vx != nn")
    } else if class == 0x5 {
        ("5xy0", "Skip if Vx == Vy")
    } else if class == 0x6 {
        ("6xnn", "Vx = nn")
    } else if class == 0x7 {
        ("7xnn", "Vx = Vx + nn")
    } else if class == 0x8 {
        if low == 0x0 {
            ("8xy0", "Vx = Vy")
        } else if low == 0x1 && quirks.bitwise_reset_vf {
            ("8xy1", "Vx = Vx OR Vy (VF = 0)")
        } else if low == 0x1 {
            ("8xy1", "Vx = Vx OR Vy")
        } else if low == 0x2 && quirks.bitwise_reset_vf {
            ("8xy2", "Vx = Vx AND Vy (VF = 0)")
        } else if low == 0x2 {
            ("8xy2", "Vx = Vx AND Vy")
        } else if low == 0x3 && quirks.bitwise_reset_vf {
            ("8xy3", "Vx = Vx XOR Vy (VF = 0)")
        } else if low == 0x3 {
            ("8xy3", "Vx = Vx XOR Vy")
        } else if low == 0x4 {
            ("8xy4", "Vx = Vx + Vy (VF = overflow?)")
        } else if low == 0x5 {
            ("8xy5", "Vx = Vx - Vy (VF = no underflow?)")
        } else if low == 0x6 && quirks.direct_shifting {
            ("8xy6", "Vx = Vx >> 1 (VF = shifted bit)")
        } else if low == 0x6 {
            ("8xy6", "Vx = Vy >> 1 (VF = shifted bit)")
        } else if low == 0x7 {
            ("8xy7", "Vx = Vy - Vx (VF = no underflow?)")
        } else if low == 0xE && quirks.direct_shifting {
            ("8xyE", "Vx = Vx << 1 (VF = shifted bit)")
        } else if low == 0xE {
            ("8xyE", "Vx = Vy << 1 (VF = shifted bit)")
        } else {
            ("????", "Illegal instruction")
        }
    } else if class == 0x9 {
        ("9xy0", "Skip if Vx != Vy")
    } else if class == 0xA {
        ("Annn", "I = nnn")
    } else if class == 0xB {
        if quirks.jump_to_x {
            ("Bxnn", "Jump to nnn + Vx")
        } else {
            ("Bnnn", "Jump to nnn + V0")
        }
    } else if class == 0xC {
        ("Cxnn", "Vx = random AND nn")
    } else if class == 0xD {
        if schip && low == 0 {
            ("Dxy0", "Draw 16x16 sprite at (Vx, Vy)")
        } else {
            ("Dxyn", "Draw 8xn sprite at (Vx, Vy)")
        }
    } else if class == 0xE {
        if byte == 0x9E {
            ("Ex9E", "Skip if key code Vx is down")
        } else if byte == 0xA1 {
            ("ExA1", "Skip if key code Vx is up")
        } else {
            ("????", "Illegal instruction")
        }
    } else if class == 0xF {
        if byte == 0x07 {
            ("Fx07", "Vx = delay")
        } else if byte == 0x0A {
            ("Fx0A", "Wait for key press and save to Vx")
        } else if byte == 0x15 {
            ("Fx15", "delay = Vx")
        } else if byte == 0x18 {
            ("Fx18", "sound = Vx")
        } else if byte == 0x1E {
            ("Fx1E", "I = I + Vx")
        } else if byte == 0x29 {
            ("Fx29", "I = font for Vx")
        } else if byte == 0x30 && schip {
            ("Fx30", "I = big font for Vx")
        } else if byte == 0x33 {
            ("Fx33", "Write Vx as BCD")
        } else if byte == 0x55 && quirks.save_load_increment {
            ("Fx55", "Write V0 to Vx")
        } else if byte == 0x55 {
            ("Fx55", "Write V0 to Vx (I = I + x + 1)")
        } else if byte == 0x65 && quirks.save_load_increment {
            ("Fx65", "Read V0 to Vx")
        } else if byte == 0x65 {
            ("Fx65", "Read V0 to Vx (I = I + x + 1)")
        } else if byte == 0x75 && schip {
            ("Fx75", "Save V0 to Vx to persistent flags")
        } else if byte == 0x85 && schip {
            ("Fx85", "Load V0 to Vx from persistent flags")
        } else {
            ("????", "Illegal instruction")
        }
    } else {
        ("????", "Illegal instruction")
    }
}

} // verus!
