use vstd::prelude::*;
use crate::decode::{lemma_operand_ranges, operands};
use crate::display::{collides, drawn, screen_len, sprite_hits, sprite_shape_ok};
use crate::interpreter::initial;
use crate::memory::{
    font, fresh_ram, with_program, FONT_SIZE, PROGRAM_CAPACITY, PROGRAM_START, RAM_SIZE,
};
use crate::message::{hex4, illegal_message, machine_code_message};
use crate::quirks::{Quirks, Variant};
use crate::semantics::{
    cycle, exec_draw, exec_misc, exec_system, execute, fetch, next_pc, saturating_inc, sprite_len,
    wide_sprite, Chip8View,
};

verus! {

/// After a program is loaded into fresh memory, the bytes from 0x200 on are the
/// program, the bytes below 0x200 are the font followed by zeros, and the rest
/// of memory is zero.
pub proof fn lemma_load_reads_back(program: Seq<u8>)
    requires
        program.len() <= PROGRAM_CAPACITY,
    ensures
        ({
            let ram = with_program(fresh_ram(), program);
            &&& ram.len() == 4096
            &&& forall|k: int| 0 <= k < program.len() ==> ram[PROGRAM_START + k] == program[k]
            &&& forall|k: int| 0 <= k < FONT_SIZE ==> ram[k] == font()[k]
            &&& forall|k: int| FONT_SIZE <= k < PROGRAM_START ==> ram[k] == 0
            &&& forall|k: int| PROGRAM_START + program.len() <= k < 4096 ==> ram[k] == 0
        }),
{
}

/// The quirks preset a variant's constructor selects.
pub open spec fn preset_quirks(variant: Variant) -> Quirks {
    if variant is CHIP8 { Quirks::spec_vip_chip() } else { Quirks::spec_super_chip1_1() }
}

/// The cycles per frame a variant's constructor selects.
pub open spec fn preset_speed(variant: Variant) -> u32 {
    if variant is CHIP8 { 15 } else { 30 }
}

/// Resetting and loading a program gives the state of a freshly built
/// interpreter of the same variant with that program loaded, apart from what
/// the reset keeps by design: the quirks, the driver's sound and speed settings
/// and the persistent flags.
pub proof fn lemma_reset_is_fresh(s: Chip8View, program: Seq<u8>)
    requires
        s.wf(),
        s.variant is CHIP8 || s.variant is SCHIP11,
        program.len() <= PROGRAM_CAPACITY,
    ensures
        s.reset().load(program) == (Chip8View {
            quirks: s.quirks,
            sound_on: s.sound_on,
            execution_speed: s.execution_speed,
            persistent_flags: s.persistent_flags,
            flags_pending: s.flags_pending,
            ..initial(s.variant, preset_quirks(s.variant), preset_speed(s.variant)).load(program)
        }),
{
    assert(s.reset().load(program) =~= (Chip8View {
        quirks: s.quirks,
        sound_on: s.sound_on,
        execution_speed: s.execution_speed,
        persistent_flags: s.persistent_flags,
        flags_pending: s.flags_pending,
        ..initial(s.variant, preset_quirks(s.variant), preset_speed(s.variant)).load(program)
    }));
}

/// Drawing the same sprite twice at the same place restores the screen, and
/// the second drawing collides exactly when some set bit of the sprite is on
/// the screen.
pub proof fn lemma_draw_twice(
    pixels: Seq<bool>,
    sprite: Seq<u8>,
    wide: bool,
    x: int,
    y: int,
    highres: bool,
    clip: bool,
)
    requires
        sprite_shape_ok(sprite, wide),
        pixels.len() >= screen_len(highres),
    ensures
        drawn(drawn(pixels, sprite, wide, x, y, highres, clip), sprite, wide, x, y, highres, clip)
            == pixels,
        collides(drawn(pixels, sprite, wide, x, y, highres, clip), sprite, wide, x, y, highres, clip)
            == exists|i: int| #[trigger] sprite_hits(sprite, wide, x, y, highres, clip, i) && !pixels[i],
{
    reveal(drawn);
    reveal(collides);
    let once = drawn(pixels, sprite, wide, x, y, highres, clip);
    assert(drawn(once, sprite, wide, x, y, highres, clip) =~= pixels);
    if collides(once, sprite, wide, x, y, highres, clip) {
        let i = choose|i: int| #[trigger] sprite_hits(sprite, wide, x, y, highres, clip, i) && once[i];
        assert(sprite_hits(sprite, wide, x, y, highres, clip, i) && !pixels[i]);
    }
    if exists|i: int| #[trigger] sprite_hits(sprite, wide, x, y, highres, clip, i) && !pixels[i] {
        let i = choose|i: int| #[trigger] sprite_hits(sprite, wide, x, y, highres, clip, i) && !pixels[i];
        assert(sprite_hits(sprite, wide, x, y, highres, clip, i) && once[i]);
    }
}

/// The key-wait instruction `Fx0A` moves past itself and starts waiting for a
/// key that goes to Vx.
pub proof fn lemma_key_wait_starts(s: Chip8View, opcode: u16, random: u8)
    requires
        s.wf(),
        !s.awaiting_key,
        operands(opcode).class == 15,
        operands(opcode).byte == 0x0A,
    ensures
        execute(s, opcode, random) == (Chip8View {
            awaiting_key: true,
            key_destination: operands(opcode).x as nat,
            pc: next_pc(s.pc),
            ..s
        }),
{
    reveal(exec_misc);
}

/// The state after one cycle for each byte of `randoms`, each cycle drawing
/// the next byte.
pub open spec fn run_cycles(s: Chip8View, randoms: Seq<u8>) -> Chip8View
    decreases randoms.len(),
{
    if randoms.len() == 0 {
        s
    } else {
        run_cycles(cycle(s, randoms[0]), randoms.drop_first())
    }
}

/// The frame-cycle counter after `k` more cycles.
pub open spec fn counted(n: u32, k: nat) -> u32
    decreases k,
{
    if k == 0 {
        n
    } else {
        counted(saturating_inc(n), (k - 1) as nat)
    }
}

/// While a key is awaited, any number of cycles execute nothing: the program
/// counter and every other part of the state stay as they are, but for the
/// count of cycles in the frame.
pub proof fn lemma_key_wait_holds(s: Chip8View, randoms: Seq<u8>)
    requires
        s.wf(),
        s.awaiting_key,
        s.pc < 4094,
    ensures
        run_cycles(s, randoms) == (Chip8View {
            frame_cycle: counted(s.frame_cycle, randoms.len()),
            ..s
        }),
    decreases randoms.len(),
{
    if randoms.len() > 0 {
        let next = cycle(s, randoms[0]);
        assert(next == Chip8View { frame_cycle: saturating_inc(s.frame_cycle), ..s });
        lemma_key_wait_holds(next, randoms.drop_first());
    }
}

/// However many cycles passed while waiting, handing over the key stores it in
/// the register named by the key-wait instruction and resumes execution: the
/// next cycle executes the instruction at the program counter, which the
/// waiting left where the key-wait instruction put it.
pub proof fn lemma_key_wait_resumes(s: Chip8View, randoms: Seq<u8>, key: u8, random: u8)
    requires
        s.wf(),
        s.awaiting_key,
        s.pc < 4094,
    ensures
        ({
            let waited = run_cycles(s, randoms);
            let resumed = Chip8View {
                awaiting_key: false,
                ..waited.set_v(waited.key_destination as int, key)
            };
            &&& resumed.pc == s.pc
            &&& resumed.v[s.key_destination as int] == key
            &&& !resumed.awaiting_key
            &&& cycle(resumed, random) == execute(
                Chip8View { frame_cycle: saturating_inc(resumed.frame_cycle), ..resumed },
                fetch(s),
                random,
            )
        }),
{
    lemma_key_wait_holds(s, randoms);
    let waited = run_cycles(s, randoms);
    let resumed = Chip8View { awaiting_key: false, ..waited.set_v(waited.key_destination as int, key) };
    assert(fetch(resumed) == fetch(s));
}

/// A draw instruction that runs now XORs its sprite, read from I on, onto the
/// screen at (Vx, Vy), sets VF to 1 exactly when a pixel that was on is turned
/// off, uses up the vblank and moves to the next instruction.
pub proof fn lemma_draw_instruction(s: Chip8View, opcode: u16, random: u8)
    requires
        s.wf(),
        !s.awaiting_key,
        operands(opcode).class == 13,
        !s.quirks.wait_for_vblank || s.vblank,
        s.i + sprite_len(s, opcode) <= RAM_SIZE,
    ensures
        ({
            let o = operands(opcode);
            let sprite = s.ram.subrange(s.i as int, s.i + sprite_len(s, opcode));
            let wide = wide_sprite(s, opcode);
            let x = s.v[o.x as int] as int;
            let y = s.v[o.y as int] as int;
            let clip = s.quirks.edge_clipping;
            execute(s, opcode, random) == (Chip8View {
                pixels: drawn(s.pixels, sprite, wide, x, y, s.highres, clip),
                vblank: false,
                pc: next_pc(s.pc),
                ..s.set_v(15, if collides(s.pixels, sprite, wide, x, y, s.highres, clip) { 1 } else { 0 })
            })
        }),
{
    reveal(exec_draw);
    let o = operands(opcode);
    let sprite = s.ram.subrange(s.i as int, s.i + sprite_len(s, opcode));
    let wide = wide_sprite(s, opcode);
    let x = s.v[o.x as int] as int;
    let y = s.v[o.y as int] as int;
    let clip = s.quirks.edge_clipping;
    assert(execute(s, opcode, random) =~= (Chip8View {
        pixels: drawn(s.pixels, sprite, wide, x, y, s.highres, clip),
        vblank: false,
        pc: next_pc(s.pc),
        ..s.set_v(15, if collides(s.pixels, sprite, wide, x, y, s.highres, clip) { 1 } else { 0 })
    }));
}

/// Executing the same draw instruction twice, with no wait for the vblank and
/// coordinates outside VF, restores the screen; the second drawing sets VF to 1
/// exactly when some set bit of the sprite landed on a pixel that was off.
pub proof fn lemma_draw_instruction_twice(s: Chip8View, opcode: u16, r1: u8, r2: u8)
    requires
        s.wf(),
        !s.awaiting_key,
        !s.quirks.wait_for_vblank,
        operands(opcode).class == 13,
        operands(opcode).x != 15,
        operands(opcode).y != 15,
        s.i + sprite_len(s, opcode) <= RAM_SIZE,
    ensures
        ({
            let o = operands(opcode);
            let sprite = s.ram.subrange(s.i as int, s.i + sprite_len(s, opcode));
            let t = execute(execute(s, opcode, r1), opcode, r2);
            &&& t.pixels == s.pixels
            &&& t.v[15] == if exists|i: int|
                #[trigger] sprite_hits(
                    sprite,
                    wide_sprite(s, opcode),
                    s.v[o.x as int] as int,
                    s.v[o.y as int] as int,
                    s.highres,
                    s.quirks.edge_clipping,
                    i,
                ) && !s.pixels[i] {
                1u8
            } else {
                0u8
            }
            &&& t.pc == next_pc(next_pc(s.pc))
        }),
{
    lemma_operand_ranges(opcode);
    lemma_draw_instruction(s, opcode, r1);
    let once = execute(s, opcode, r1);
    assert(once.wf()) by {
        reveal(drawn);
    }
    lemma_draw_instruction(once, opcode, r2);
    let o = operands(opcode);
    let sprite = s.ram.subrange(s.i as int, s.i + sprite_len(s, opcode));
    assert(sprite_shape_ok(sprite, wide_sprite(s, opcode)));
    lemma_draw_twice(
        s.pixels,
        sprite,
        wide_sprite(s, opcode),
        s.v[o.x as int] as int,
        s.v[o.y as int] as int,
        s.highres,
        s.quirks.edge_clipping,
    );
}

/// Under the baseline variant, an instruction that only the extended variants
/// know halts the interpreter with a message that holds the instruction word in
/// hexadecimal.
pub proof fn lemma_extended_only_halts(s: Chip8View, opcode: u16, random: u8)
    requires
        s.wf(),
        !s.awaiting_key,
        s.variant is CHIP8,
        operands(opcode).class == 0 && operands(opcode).x == 0 && (operands(opcode).y == 0xC || 0xFB
            <= operands(opcode).byte <= 0xFF) || operands(opcode).class == 15 && (operands(opcode).byte
            == 0x30 || operands(opcode).byte == 0x75 || operands(opcode).byte == 0x85),
    ensures
        ({
            let t = execute(s, opcode, random);
            &&& !t.running
            &&& t.halt_message is Some
            &&& exists|k: int|
                0 <= k && k + 4 <= t.halt_message->0.len() && #[trigger] t.halt_message->0.subrange(
                    k,
                    k + 4,
                ) == hex4(opcode)
        }),
{
    reveal(exec_system);
    reveal(exec_misc);
    reveal(operands);
    let t = execute(s, opcode, random);
    if operands(opcode).class == 0 {
        let a = "Machine code routines are not supported: "@;
        let m = machine_code_message(opcode);
        assert(t.halt_message->0 == m);
        assert(m.subrange(a.len() as int, a.len() as int + 4) =~= hex4(opcode));
    } else {
        let a = "Illegal instruction: "@;
        let m = illegal_message(opcode);
        assert(t.halt_message->0 == m);
        assert(m.subrange(a.len() as int, a.len() as int + 4) =~= hex4(opcode));
    }
}

} // verus!
