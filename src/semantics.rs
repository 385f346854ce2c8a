use vstd::prelude::*;
use crate::decode::operands;
use crate::display::{
    collides, drawn, scroll_distance, scrolled, ScrollDirection, BIG_LEN, SMALL_LEN,
};
use crate::memory::{fresh_ram, with_program, word, RAM_SIZE};
use crate::message::{illegal_message, machine_code_message, out_of_bounds_message};
use crate::quirks::{Quirks, Variant};

verus! {

/// The state of the interpreter as mathematical values.
#[verifier::ext_equal]
pub struct Chip8View {
    /// The registers V0 to VF.
    pub v: Seq<u8>,
    /// The index register I.
    pub i: u16,
    /// The program counter.
    pub pc: u16,
    /// The stack pointer.
    pub sp: u8,
    /// The delay timer.
    pub delay: u8,
    /// The sound timer.
    pub sound: u8,
    /// The bytes of memory.
    pub ram: Seq<u8>,
    /// The screen buffer, row by row.
    pub pixels: Seq<bool>,
    /// Whether the 128x64 resolution is selected.
    pub highres: bool,
    /// Which of the 16 keys are down.
    pub keypad: Seq<bool>,
    /// The return-address stack.
    pub stack: Seq<u16>,
    /// The feature tier.
    pub variant: Variant,
    /// The behaviour switches.
    pub quirks: Quirks,
    /// Whether the driver should play sound.
    pub sound_on: bool,
    /// The capacity of the stack.
    pub stack_size: nat,
    /// The number of cycles run in the current frame.
    pub frame_cycle: u32,
    /// The number of cycles the driver runs per frame.
    pub execution_speed: u32,
    /// Whether instructions are being executed.
    pub running: bool,
    /// Why the interpreter halted, if it did.
    pub halt_message: Option<Seq<char>>,
    /// Whether the screen is ready for drawing in this frame.
    pub vblank: bool,
    /// Whether execution waits for a key.
    pub awaiting_key: bool,
    /// The register that receives the awaited key.
    pub key_destination: nat,
    /// The persistent flag registers.
    pub persistent_flags: Seq<u8>,
    /// Whether the persistent flags changed since the driver last stored them.
    pub flags_pending: bool,
}

/// The address two bytes on, in the 16-bit program counter.
pub open spec fn next_pc(pc: u16) -> u16 {
    ((pc as int + 2) % 0x10000) as u16
}

/// The capacity of the return-address stack of a variant.
pub open spec fn stack_capacity(variant: Variant) -> nat {
    if variant.spec_supports_schip() { 16 } else { 12 }
}

/// The number of pixels of the screen buffer of a variant.
pub open spec fn buffer_len(variant: Variant) -> nat {
    if variant.spec_supports_schip() { BIG_LEN as nat } else { SMALL_LEN as nat }
}

/// A counter incremented with saturation at the top of its range.
pub open spec fn saturating_inc(n: u32) -> u32 {
    if n < u32::MAX { (n + 1) as u32 } else { n }
}

impl Chip8View {
    /// The invariant of the interpreter state.
    pub open spec fn wf(self) -> bool {
        &&& self.v.len() == 16
        &&& self.ram.len() == RAM_SIZE
        &&& self.keypad.len() == 16
        &&& self.persistent_flags.len() == 8
        &&& self.stack_size == stack_capacity(self.variant)
        &&& self.stack.len() == self.stack_size
        &&& self.sp <= self.stack_size
        &&& self.key_destination < 16
        &&& self.pixels.len() == buffer_len(self.variant)
        &&& self.highres ==> self.variant.spec_supports_schip()
    }

    /// The state with the program counter moved to the next instruction.
    pub open spec fn advance(self) -> Chip8View {
        Chip8View { pc: next_pc(self.pc), ..self }
    }

    /// The state moved past the next instruction when `c` holds, else to it.
    pub open spec fn skip_if(self, c: bool) -> Chip8View {
        if c { self.advance().advance() } else { self.advance() }
    }

    /// The state with register `x` set to `value`.
    pub open spec fn set_v(self, x: int, value: u8) -> Chip8View {
        Chip8View { v: self.v.update(x, value), ..self }
    }

    /// The state stopped, with a halt message.
    pub open spec fn halt(self, message: Seq<char>) -> Chip8View {
        Chip8View { running: false, halt_message: Some(message), ..self }
    }

    /// The state after a reset: everything cleared but the variant, the quirks,
    /// the driver's settings and the persistent flags.
    pub open spec fn reset(self) -> Chip8View {
        Chip8View {
            v: Seq::new(16, |k: int| 0u8),
            i: 0,
            pc: 0x200,
            sp: 0,
            delay: 0,
            sound: 0,
            ram: fresh_ram(),
            pixels: Seq::new(self.pixels.len(), |k: int| false),
            highres: false,
            keypad: Seq::new(16, |k: int| false),
            stack: Seq::new(self.stack_size, |k: int| 0u16),
            frame_cycle: 0,
            running: false,
            halt_message: None,
            vblank: true,
            awaiting_key: false,
            key_destination: 0,
            ..self
        }
    }

    /// The state with a program placed in freshly reset memory.
    pub open spec fn load(self, program: Seq<u8>) -> Chip8View {
        Chip8View { ram: with_program(fresh_ram(), program), ..self }
    }
}

/// The state with the screen scrolled `n` pixels in direction `d`.
pub open spec fn scroll(s: Chip8View, d: ScrollDirection, n: int) -> Chip8View {
    Chip8View {
        pixels: scrolled(s.pixels, d, scroll_distance(n, s.highres, s.quirks.lowres_scroll), s.highres),
        ..s
    }.advance()
}

/// Instructions of class 0: clear, return, screen control and exit.
#[verifier::opaque]
pub open spec fn exec_system(s: Chip8View, opcode: u16) -> Chip8View {
    let o = operands(opcode);
    let schip = s.variant.spec_supports_schip();
    if opcode == 0 {
        Chip8View { running: false, ..s }.advance()
    } else if schip && o.y == 0xC {
        scroll(s, ScrollDirection::Down, o.nibble as int)
    } else if o.byte == 0xE0 {
        Chip8View { pixels: Seq::new(s.pixels.len(), |k: int| false), ..s }.advance()
    } else if o.byte == 0xEE {
        let sp = if s.sp > 0 { (s.sp - 1) as u8 } else { 0u8 };
        Chip8View { sp: sp, pc: s.stack[sp as int], ..s }
    } else if schip && o.byte == 0xFF {
        Chip8View { highres: true, ..s }.advance()
    } else if schip && o.byte == 0xFE {
        Chip8View { highres: false, ..s }.advance()
    } else if schip && o.byte == 0xFB {
        scroll(s, ScrollDirection::Right, 4)
    } else if schip && o.byte == 0xFC {
        scroll(s, ScrollDirection::Left, 4)
    } else if schip && o.byte == 0xFD {
        s.reset().advance()
    } else {
        s.halt(machine_code_message(opcode)).advance()
    }
}

/// A bitwise instruction: the result in Vx, and VF cleared when the quirk says so.
pub open spec fn bitwise(s: Chip8View, x: int, value: u8) -> Chip8View {
    let t = s.set_v(x, value);
    if s.quirks.bitwise_reset_vf { t.set_v(15, 0) } else { t }
}

/// Instructions of class 8: register to register arithmetic and logic.
#[verifier::opaque]
pub open spec fn exec_alu(s: Chip8View, opcode: u16) -> Chip8View {
    let o = operands(opcode);
    let x = o.x as int;
    let vx = s.v[x];
    let vy = s.v[o.y as int];
    let shift_source = if s.quirks.direct_shifting { vx } else { vy };
    if o.nibble == 0 {
        s.set_v(x, vy).advance()
    } else if o.nibble == 1 {
        bitwise(s, x, vx | vy).advance()
    } else if o.nibble == 2 {
        bitwise(s, x, vx & vy).advance()
    } else if o.nibble == 3 {
        bitwise(s, x, vx ^ vy).advance()
    } else if o.nibble == 4 {
        s.set_v(x, ((vx + vy) % 256) as u8).set_v(15, if vx + vy > 255 { 1u8 } else { 0u8 }).advance()
    } else if o.nibble == 5 {
        s.set_v(x, ((vx - vy + 256) % 256) as u8).set_v(15, if vx >= vy { 1u8 } else { 0u8 }).advance()
    } else if o.nibble == 6 {
        s.set_v(x, shift_source / 2).set_v(15, shift_source % 2).advance()
    } else if o.nibble == 7 {
        s.set_v(x, ((vy - vx + 256) % 256) as u8).set_v(15, if vy >= vx { 1u8 } else { 0u8 }).advance()
    } else if o.nibble == 14 {
        s.set_v(x, ((shift_source * 2) % 256) as u8).set_v(15, shift_source / 128).advance()
    } else {
        s.halt(illegal_message(opcode)).advance()
    }
}

/// Whether the sprite of a draw instruction is 16x16.
pub open spec fn wide_sprite(s: Chip8View, opcode: u16) -> bool {
    s.variant.spec_supports_schip() && operands(opcode).nibble == 0
}

/// The number of sprite bytes a draw instruction reads from I on.
pub open spec fn sprite_len(s: Chip8View, opcode: u16) -> int {
    if wide_sprite(s, opcode) { 32 } else { operands(opcode).nibble as int }
}

/// Instructions of class D: draw a sprite read from I at (Vx, Vy).
#[verifier::opaque]
pub open spec fn exec_draw(s: Chip8View, opcode: u16) -> Chip8View {
    let o = operands(opcode);
    let wide = wide_sprite(s, opcode);
    let len = sprite_len(s, opcode);
    let vx = s.v[o.x as int] as int;
    let vy = s.v[o.y as int] as int;
    let clip = s.quirks.edge_clipping;
    if s.quirks.wait_for_vblank && !s.vblank {
        s
    } else if s.i + len > RAM_SIZE {
        s.halt(out_of_bounds_message(opcode)).advance()
    } else {
        let sprite = s.ram.subrange(s.i as int, s.i + len);
        Chip8View {
            pixels: drawn(s.pixels, sprite, wide, vx, vy, s.highres, clip),
            vblank: false,
            ..s
        }.set_v(15, if collides(s.pixels, sprite, wide, vx, vy, s.highres, clip) { 1u8 } else { 0u8 }).advance()
    }
}

/// Instructions of class E: skip on the state of the key named by Vx.
#[verifier::opaque]
pub open spec fn exec_keys(s: Chip8View, opcode: u16) -> Chip8View {
    let o = operands(opcode);
    let down = s.keypad[(s.v[o.x as int] % 16) as int];
    if o.byte == 0x9E {
        s.skip_if(down)
    } else if o.byte == 0xA1 {
        s.skip_if(!down)
    } else {
        s.halt(illegal_message(opcode)).advance()
    }
}

/// The index register after a block transfer of registers V0 to Vx.
pub open spec fn index_after_transfer(s: Chip8View, x: int) -> u16 {
    if s.quirks.save_load_increment { s.i } else { ((s.i + x + 1) % 0x10000) as u16 }
}

/// Instructions of class F: timers, index register, memory transfers, key wait
/// and persistent flags.
#[verifier::opaque]
pub open spec fn exec_misc(s: Chip8View, opcode: u16) -> Chip8View {
    let o = operands(opcode);
    let x = o.x as int;
    let vx = s.v[x];
    let schip = s.variant.spec_supports_schip();
    if o.byte == 0x07 {
        s.set_v(x, s.delay).advance()
    } else if o.byte == 0x0A {
        Chip8View { awaiting_key: true, key_destination: x as nat, ..s }.advance()
    } else if o.byte == 0x15 {
        Chip8View { delay: vx, ..s }.advance()
    } else if o.byte == 0x18 {
        Chip8View { sound: vx, ..s }.advance()
    } else if o.byte == 0x1E {
        Chip8View { i: ((s.i + vx) % 0x10000) as u16, ..s }.advance()
    } else if o.byte == 0x29 {
        Chip8View { i: ((vx % 16) * 5) as u16, ..s }.advance()
    } else if schip && o.byte == 0x30 {
        Chip8View { i: ((vx % 16) * 10 + 80) as u16, ..s }.advance()
    } else if o.byte == 0x33 {
        if s.i + 3 > RAM_SIZE {
            s.halt(out_of_bounds_message(opcode)).advance()
        } else {
            Chip8View {
                ram: s.ram.update(s.i as int, vx / 100).update(s.i + 1, (vx / 10) % 10).update(
                    s.i + 2,
                    vx % 10,
                ),
                ..s
            }.advance()
        }
    } else if o.byte == 0x55 {
        if s.i + x + 1 > RAM_SIZE {
            s.halt(out_of_bounds_message(opcode)).advance()
        } else {
            Chip8View {
                ram: Seq::new(
                    s.ram.len(),
                    |k: int| if s.i <= k <= s.i + x { s.v[k - s.i] } else { s.ram[k] },
                ),
                i: index_after_transfer(s, x),
                ..s
            }.advance()
        }
    } else if o.byte == 0x65 {
        if s.i + x + 1 > RAM_SIZE {
            s.halt(out_of_bounds_message(opcode)).advance()
        } else {
            Chip8View {
                v: Seq::new(16, |k: int| if k <= x { s.ram[s.i + k] } else { s.v[k] }),
                i: index_after_transfer(s, x),
                ..s
            }.advance()
        }
    } else if schip && o.byte == 0x75 && x < 8 {
        Chip8View {
            persistent_flags: Seq::new(8, |k: int| if k <= x { s.v[k] } else { s.persistent_flags[k] }),
            flags_pending: true,
            ..s
        }.advance()
    } else if schip && o.byte == 0x85 && x < 8 {
        Chip8View {
            v: Seq::new(16, |k: int| if k <= x { s.persistent_flags[k] } else { s.v[k] }),
            ..s
        }.advance()
    } else {
        s.halt(illegal_message(opcode)).advance()
    }
}

/// Instructions of classes 1 to 7 and 9 to C: jumps, calls, skips, immediate
/// loads and the random byte.
#[verifier::opaque]
pub open spec fn exec_basic(s: Chip8View, opcode: u16, random: u8) -> Chip8View {
    let o = operands(opcode);
    let x = o.x as int;
    let vx = s.v[x];
    let vy = s.v[o.y as int];
    if o.class == 1 {
        Chip8View { pc: o.addr, ..s }
    } else if o.class == 2 {
        if s.sp < s.stack_size {
            Chip8View {
                stack: s.stack.update(s.sp as int, next_pc(s.pc)),
                sp: (s.sp + 1) as u8,
                pc: o.addr,
                ..s
            }
        } else {
            Chip8View { pc: o.addr, ..s }
        }
    } else if o.class == 3 {
        s.skip_if(vx == o.byte)
    } else if o.class == 4 {
        s.skip_if(vx != o.byte)
    } else if o.class == 5 && o.nibble == 0 {
        s.skip_if(vx == vy)
    } else if o.class == 6 {
        s.set_v(x, o.byte).advance()
    } else if o.class == 7 {
        s.set_v(x, ((vx + o.byte) % 256) as u8).advance()
    } else if o.class == 9 && o.nibble == 0 {
        s.skip_if(vx != vy)
    } else if o.class == 10 {
        Chip8View { i: o.addr, ..s }.advance()
    } else if o.class == 11 {
        Chip8View { pc: (o.addr + if s.quirks.jump_to_x { vx } else { s.v[0] }) as u16, ..s }
    } else if o.class == 12 {
        s.set_v(x, random & o.byte).advance()
    } else {
        s.halt(illegal_message(opcode)).advance()
    }
}

/// The state after executing `opcode`, where `random` is the byte drawn for the
/// random-number instruction. While a key is awaited nothing happens.
pub open spec fn execute(s: Chip8View, opcode: u16, random: u8) -> Chip8View {
    let o = operands(opcode);
    if s.awaiting_key {
        s
    } else if o.class == 0 {
        exec_system(s, opcode)
    } else if o.class == 8 {
        exec_alu(s, opcode)
    } else if o.class == 13 {
        exec_draw(s, opcode)
    } else if o.class == 14 {
        exec_keys(s, opcode)
    } else if o.class == 15 {
        exec_misc(s, opcode)
    } else {
        exec_basic(s, opcode, random)
    }
}

/// The instruction word at the program counter.
pub open spec fn fetch(s: Chip8View) -> u16 {
    word(s.ram[s.pc as int], s.ram[s.pc + 1])
}

/// The state after one cycle: near the end of memory the interpreter stops,
/// otherwise the cycle is counted and the instruction at the program counter
/// is executed. A halt message stays until a reset.
pub open spec fn cycle(s: Chip8View, random: u8) -> Chip8View {
    if s.pc >= RAM_SIZE - 2 {
        Chip8View { running: false, ..s }
    } else {
        execute(Chip8View { frame_cycle: saturating_inc(s.frame_cycle), ..s }, fetch(s), random)
    }
}

} // verus!
