use vstd::prelude::*;
use rand::Rng;
use egui::{Color32, ColorImage};
use crate::decode::{decode, lemma_operand_ranges, operands, Operands};
use crate::display::{Display, ScrollDirection};
use crate::memory::{fresh_ram, Memory, ProgramTooLarge, PROGRAM_CAPACITY, RAM_SIZE};
use crate::message::{illegal, machine_code, out_of_bounds};
use crate::quirks::{Quirks, Variant};
use crate::semantics::{
    buffer_len, cycle, exec_alu, exec_basic, exec_draw, exec_keys, exec_misc, exec_system, execute,
    fetch, stack_capacity, sprite_len, wide_sprite, Chip8View,
};

verus! {

/// Relies on rand's `thread_rng().gen::<u8>()`: any byte may come back.
#[verifier::external_body]
fn random_byte() -> (r: u8) {
    rand::thread_rng().gen::<u8>()
}

/// The CHIP-8 interpreter: registers, memory, screen, stack, timers, keypad and
/// the control state that the driver reads and steers.
#[derive(Debug, Clone)]
pub struct Chip8 {
    /// The registers V0 to VF. VF is the flag register of some instructions.
    v: [u8; 16],
    /// The index register I. 16 bits, of which memory addresses use 12.
    i: u16,
    /// The program counter.
    program_counter: u16,
    /// The stack pointer.
    stack_pointer: u8,
    /// The delay timer, decremented once per frame.
    delay: u8,
    /// The sound timer, decremented once per frame; a tone plays while it is above 1.
    sound: u8,
    /// 4 KiB of RAM. The first 512 bytes are reserved.
    memory: Memory,
    /// The screen.
    display: Display,
    /// Whether the 128x64 resolution is selected; only a SUPER-CHIP variant selects it.
    highres: bool,
    /// The 16 keys, one for each hex digit.
    keypad: [bool; 16],
    /// The return addresses of subroutine calls.
    stack: Vec<u16>,
    /// What kind of CHIP-8 variant to run as.
    variant: Variant,
    /// The desired implementation quirks.
    pub quirks: Quirks,
    /// Sound plays if true.
    pub sound_on: bool,
    /// The capacity of the stack: 12 in CHIP-8 mode, 16 in SUPER-CHIP mode.
    stack_size: usize,
    /// The number of cycles run in the current frame.
    frame_cycle: u32,
    /// How many cycles the driver runs in one frame.
    pub execution_speed: u32,
    /// Whether the interpreter is executing instructions.
    running: bool,
    /// If the interpreter halted, why.
    pub halt_message: Option<String>,
    /// Whether the screen is ready for drawing in this frame.
    vblank: bool,
    /// Whether execution waits for a key press (instruction `Fx0A`).
    awaiting_key: bool,
    /// The register that receives the awaited key.
    key_destination: usize,
    /// The persistent flag registers of SUPER-CHIP (`Fx75`, `Fx85`).
    persistent_flags: [u8; 8],
    /// Whether the persistent flags changed and wait to be stored by the driver.
    flags_pending: bool,
}

/// The view of an optional string.
pub open spec fn message_view(m: Option<String>) -> Option<Seq<char>> {
    match m {
        Some(s) => Some(s@),
        None => None,
    }
}

impl View for Chip8 {
    type V = Chip8View;

    closed spec fn view(&self) -> Chip8View {
        Chip8View {
            v: self.v@,
            i: self.i,
            pc: self.program_counter,
            sp: self.stack_pointer,
            delay: self.delay,
            sound: self.sound,
            ram: self.memory.ram@,
            pixels: self.display.pixels@,
            highres: self.highres,
            keypad: self.keypad@,
            stack: self.stack@,
            variant: self.variant,
            quirks: self.quirks,
            sound_on: self.sound_on,
            stack_size: self.stack_size as nat,
            frame_cycle: self.frame_cycle,
            execution_speed: self.execution_speed,
            running: self.running,
            halt_message: message_view(self.halt_message),
            vblank: self.vblank,
            awaiting_key: self.awaiting_key,
            key_destination: self.key_destination as nat,
            persistent_flags: self.persistent_flags@,
            flags_pending: self.flags_pending,
        }
    }
}

/// The state of a freshly built interpreter of a variant, with its quirks,
/// cycles per frame and persistent flags.
pub open spec fn initial(variant: Variant, quirks: Quirks, speed: u32) -> Chip8View {
    Chip8View {
        v: Seq::new(16, |k: int| 0u8),
        i: 0,
        pc: 0x200,
        sp: 0,
        delay: 0,
        sound: 0,
        ram: fresh_ram(),
        pixels: Seq::new(buffer_len(variant), |k: int| false),
        highres: false,
        keypad: Seq::new(16, |k: int| false),
        stack: Seq::new(stack_capacity(variant), |k: int| 0u16),
        variant: variant,
        quirks: quirks,
        sound_on: true,
        stack_size: stack_capacity(variant),
        frame_cycle: 0,
        execution_speed: speed,
        running: false,
        halt_message: None,
        vblank: true,
        awaiting_key: false,
        key_destination: 0,
        persistent_flags: Seq::new(8, |k: int| 0u8),
        flags_pending: false,
    }
}

impl Chip8 {
    /// The invariant of the interpreter.
    pub open spec fn wf(&self) -> bool {
        self@.wf()
    }

    /// Create a CHIP-8 interpreter with the quirks of the COSMAC VIP
    /// implementation.
    pub fn chip8() -> (r: Chip8)
        ensures
            r.wf(),
            r@ == initial(Variant::CHIP8, Quirks::vip_chip(), 15),
    {
        let stack_size: usize = 12;
        let r = Chip8 {
            v: [0u8; 16],
            i: 0,
            program_counter: 0x200,
            stack_pointer: 0,
            delay: 0,
            sound: 0,
            memory: Memory::new(),
            display: Display::small(),
            highres: false,
            keypad: [false; 16],
            stack: vec![0u16; stack_size],
            variant: Variant::CHIP8,
            quirks: Quirks::vip_chip(),
            sound_on: true,
            stack_size,
            frame_cycle: 0,
            execution_speed: 15,
            running: false,
            halt_message: None,
            vblank: true,
            awaiting_key: false,
            key_destination: 0,
            persistent_flags: [0u8; 8],
            flags_pending: false,
        };
        assert(r@ =~= initial(Variant::CHIP8, Quirks::vip_chip(), 15));
        r
    }

    /// Create a SUPER-CHIP 1.1 interpreter. Its persistent flags start at zero;
    /// a driver that keeps them in storage hands them over with
    /// `restore_persistent_flags`.
    pub fn super_chip1_1() -> (r: Chip8)
        ensures
            r.wf(),
            r@ == initial(Variant::SCHIP11, Quirks::super_chip1_1(), 30),
    {
        let stack_size: usize = 16;
        let r = Chip8 {
            v: [0u8; 16],
            i: 0,
            program_counter: 0x200,
            stack_pointer: 0,
            delay: 0,
            sound: 0,
            memory: Memory::new(),
            display: Display::big(),
            highres: false,
            keypad: [false; 16],
            stack: vec![0u16; stack_size],
            variant: Variant::SCHIP11,
            quirks: Quirks::super_chip1_1(),
            sound_on: true,
            stack_size,
            frame_cycle: 0,
            execution_speed: 30,
            running: false,
            halt_message: None,
            vblank: true,
            awaiting_key: false,
            key_destination: 0,
            persistent_flags: [0u8; 8],
            flags_pending: false,
        };
        assert(r@ =~= initial(Variant::SCHIP11, Quirks::super_chip1_1(), 30));
        r
    }

    /// Set registers, timers, stack, screen, keypad and memory to their initial
    /// state and stop. The variant, the quirks, the driver's settings and the
    /// persistent flags are kept.
    pub fn reset(&mut self)
        requires
            old(self).wf(),
        ensures
            final(self).wf(),
            final(self)@ == old(self)@.reset(),
    {
        self.v = [0u8; 16];
        self.i = 0;
        self.program_counter = 0x200;
        self.stack_pointer = 0;
        self.delay = 0;
        self.sound = 0;
        self.memory.reset();
        self.display.clear();
        self.highres = false;
        self.keypad = [false; 16];
        self.stack = vec![0u16; self.stack_size];
        self.awaiting_key = false;
        self.key_destination = 0;
        self.frame_cycle = 0;
        self.vblank = true;
        self.running = false;
        self.halt_message = None;
        assert(self@ =~= old(self)@.reset());
    }

    /// Start executing instructions.
    pub fn start(&mut self)
        requires
            old(self).wf(),
        ensures
            final(self).wf(),
            final(self)@ == (Chip8View { running: true, ..old(self)@ }),
    {
        self.running = true;
    }

    /// Stop executing instructions.
    pub fn stop(&mut self)
        requires
            old(self).wf(),
        ensures
            final(self).wf(),
            final(self)@ == (Chip8View { running: false, ..old(self)@ }),
    {
        self.running = false;
    }

    /// Stop and record why.
    pub fn halt(&mut self, reason: String)
        requires
            old(self).wf(),
        ensures
            final(self).wf(),
            final(self)@ == old(self)@.halt(reason@),
    {
        self.running = false;
        self.halt_message = Some(reason);
    }

    /// Decrement both timers, stopping at zero.
    pub fn update_timers(&mut self)
        requires
            old(self).wf(),
        ensures
            final(self).wf(),
            final(self)@ == (Chip8View {
                delay: if old(self)@.delay > 0 { (old(self)@.delay - 1) as u8 } else { 0 },
                sound: if old(self)@.sound > 0 { (old(self)@.sound - 1) as u8 } else { 0 },
                ..old(self)@
            }),
    {
        self.delay = self.delay.saturating_sub(1);
        self.sound = self.sound.saturating_sub(1);
    }

    /// Mark the screen ready for drawing.
    pub fn set_vblank(&mut self)
        requires
            old(self).wf(),
        ensures
            final(self).wf(),
            final(self)@ == (Chip8View { vblank: true, ..old(self)@ }),
    {
        self.vblank = true;
    }

    /// Complete a frame: decrement the timers, mark the screen ready for drawing
    /// and start counting cycles anew.
    pub fn tick_frame(&mut self)
        requires
            old(self).wf(),
        ensures
            final(self).wf(),
            final(self)@ == (Chip8View {
                delay: if old(self)@.delay > 0 { (old(self)@.delay - 1) as u8 } else { 0 },
                sound: if old(self)@.sound > 0 { (old(self)@.sound - 1) as u8 } else { 0 },
                vblank: true,
                frame_cycle: 0,
                ..old(self)@
            }),
    {
        self.update_timers();
        self.set_vblank();
        self.frame_cycle = 0;
    }

    /// Replace the state of all keys.
    pub fn set_keys(&mut self, keys: [bool; 16])
        requires
            old(self).wf(),
        ensures
            final(self).wf(),
            final(self)@ == (Chip8View { keypad: keys@, ..old(self)@ }),
    {
        self.keypad = keys;
    }

    /// Store the awaited key in the register named by the `Fx0A` instruction and
    /// resume execution.
    pub fn save_awaited_key(&mut self, key: u8)
        requires
            old(self).wf(),
        ensures
            final(self).wf(),
            final(self)@ == (Chip8View {
                awaiting_key: false,
                ..old(self)@.set_v(old(self)@.key_destination as int, key)
            }),
    {
        self.v[self.key_destination] = key;
        self.awaiting_key = false;
    }

    /// Reset memory and load a program into it, starting at 0x200.
    ///
    /// A program longer than the space after 0x200 is refused and the
    /// interpreter is left as it was.
    pub fn load_program(&mut self, program: &[u8]) -> (r: Result<(), ProgramTooLarge>)
        requires
            old(self).wf(),
        ensures
            final(self).wf(),
            program@.len() <= PROGRAM_CAPACITY ==> r is Ok && final(self)@ == old(self)@.load(program@),
            program@.len() > PROGRAM_CAPACITY ==> r == Err::<(), ProgramTooLarge>(
                ProgramTooLarge { size: program@.len() as usize, capacity: PROGRAM_CAPACITY },
            ) && final(self)@ == old(self)@,
    {
        if program.len() > PROGRAM_CAPACITY {
            return Err(ProgramTooLarge { size: program.len(), capacity: PROGRAM_CAPACITY });
        }
        self.memory.reset();
        let r = self.memory.load_program(program);
        assert(self@ =~= old(self)@.load(program@));
        r
    }

    /// Hand over the persistent flags that a driver kept in storage.
    pub fn restore_persistent_flags(&mut self, flags: [u8; 8])
        requires
            old(self).wf(),
        ensures
            final(self).wf(),
            final(self)@ == (Chip8View { persistent_flags: flags@, ..old(self)@ }),
    {
        self.persistent_flags = flags;
    }

    /// Set all persistent flags to zero and mark them for storing.
    pub fn clear_persistent_flags(&mut self)
        requires
            old(self).wf(),
        ensures
            final(self).wf(),
            final(self)@ == (Chip8View {
                persistent_flags: Seq::new(8, |k: int| 0u8),
                flags_pending: true,
                ..old(self)@
            }),
    {
        self.persistent_flags = [0u8; 8];
        self.flags_pending = true;
        assert(self@ =~= Chip8View {
            persistent_flags: Seq::new(8, |k: int| 0u8),
            flags_pending: true,
            ..old(self)@
        });
    }

    /// The persistent flags, if they changed since the last call: the driver
    /// stores what this returns.
    pub fn take_pending_flags(&mut self) -> (r: Option<[u8; 8]>)
        requires
            old(self).wf(),
        ensures
            final(self).wf(),
            final(self)@ == (Chip8View { flags_pending: false, ..old(self)@ }),
            old(self)@.flags_pending ==> r is Some && r->0@ == old(self)@.persistent_flags,
            !old(self)@.flags_pending ==> r is None,
    {
        if self.flags_pending {
            self.flags_pending = false;
            Some(self.persistent_flags)
        } else {
            None
        }
    }

    /// Move the program counter to the next instruction.
    fn increment_program_counter(&mut self)
        ensures
            final(self)@ == old(self)@.advance(),
    {
        self.program_counter = ((self.program_counter as u32 + 2) % 0x10000) as u16;
    }

    /// Skip the next instruction when `c` holds.
    fn skip_if(&mut self, c: bool)
        ensures
            final(self)@ == old(self)@.skip_if(c),
    {
        self.increment_program_counter();
        if c {
            self.increment_program_counter();
        }
    }

    /// Set the flag register VF.
    fn set_flag(&mut self, value: u8)
        ensures
            final(self)@ == old(self)@.set_v(15, value),
    {
        self.v[15] = value;
    }

    /// Stop at an empty word, or scroll down.
    fn run_stop_or_scroll(&mut self, opcode: u16, o: Operands)
        requires
            old(self).wf(),
            o == operands(opcode),
            o.x < 16 && o.y < 16 && o.nibble < 16 && o.addr < 4096 && o.class < 16,
            o.class == 0 && (opcode == 0 || (old(self)@.variant.spec_supports_schip() && o.y == 0xC)),
        ensures
            final(self).wf(),
            final(self)@ == exec_system(old(self)@, opcode),
    {
        proof {
            reveal(exec_system);
        }
        if opcode == 0 {
            self.running = false;
        } else {
            self.display.scroll(
                ScrollDirection::Down,
                o.nibble as usize,
                self.highres,
                self.quirks.lowres_scroll,
            );
        }
        self.increment_program_counter();
    }

    /// Clear the screen.
    fn run_clear(&mut self, opcode: u16, o: Operands)
        requires
            old(self).wf(),
            o == operands(opcode),
            o.x < 16 && o.y < 16 && o.nibble < 16 && o.addr < 4096 && o.class < 16,
            o.class == 0 && !(opcode == 0 || (old(self)@.variant.spec_supports_schip() && o.y == 0xC)) && o.byte == 0xE0,
        ensures
            final(self).wf(),
            final(self)@ == exec_system(old(self)@, opcode),
    {
        proof {
            reveal(exec_system);
        }
        self.display.clear();
        self.increment_program_counter();
    }

    /// Return from a subroutine.
    fn run_return(&mut self, opcode: u16, o: Operands)
        requires
            old(self).wf(),
            o == operands(opcode),
            o.x < 16 && o.y < 16 && o.nibble < 16 && o.addr < 4096 && o.class < 16,
            o.class == 0 && !(opcode == 0 || (old(self)@.variant.spec_supports_schip() && o.y == 0xC)) && o.byte == 0xEE,
        ensures
            final(self).wf(),
            final(self)@ == exec_system(old(self)@, opcode),
    {
        proof {
            reveal(exec_system);
        }
        if self.stack_pointer > 0 {
            self.stack_pointer = self.stack_pointer - 1;
        }
        self.program_counter = self.stack[self.stack_pointer as usize];
    }

    /// Switch resolution, scroll sideways, exit, or refuse a machine code routine.
    fn run_system_control(&mut self, opcode: u16, o: Operands)
        requires
            old(self).wf(),
            !old(self)@.awaiting_key,
            o == operands(opcode),
            o.x < 16 && o.y < 16 && o.nibble < 16 && o.addr < 4096 && o.class < 16,
            o.class == 0 && !(opcode == 0 || (old(self)@.variant.spec_supports_schip() && o.y == 0xC) || o.byte == 0xE0 || o.byte == 0xEE),
        ensures
            final(self).wf(),
            final(self)@ == exec_system(old(self)@, opcode),
    {
        proof {
            reveal(exec_system);
        }
        let schip = self.variant.supports_schip();
        if schip && o.byte == 0xFF {
            self.highres = true;
            self.increment_program_counter();
        } else if schip && o.byte == 0xFE {
            self.highres = false;
            self.increment_program_counter();
        } else if schip && o.byte == 0xFB {
            self.display.scroll(ScrollDirection::Right, 4, self.highres, self.quirks.lowres_scroll);
            self.increment_program_counter();
        } else if schip && o.byte == 0xFC {
            self.display.scroll(ScrollDirection::Left, 4, self.highres, self.quirks.lowres_scroll);
            self.increment_program_counter();
        } else if schip && o.byte == 0xFD {
            self.reset();
            self.increment_program_counter();
        } else {
            self.halt(machine_code(opcode));
            self.increment_program_counter();
        }
    }

    /// Jump, call a subroutine, or jump with an offset.
    fn run_jump(&mut self, opcode: u16, o: Operands, random: u8)
        requires
            old(self).wf(),
            o == operands(opcode),
            o.x < 16 && o.y < 16 && o.nibble < 16 && o.addr < 4096 && o.class < 16,
            o.class == 1 || o.class == 2 || o.class == 11,
        ensures
            final(self).wf(),
            final(self)@ == exec_basic(old(self)@, opcode, random),
    {
        proof {
            reveal(exec_basic);
        }
        if o.class == 1 {
            self.program_counter = o.addr;
        } else if o.class == 2 {
            if (self.stack_pointer as usize) < self.stack_size {
                let ret = ((self.program_counter as u32 + 2) % 0x10000) as u16;
                self.stack.set(self.stack_pointer as usize, ret);
                self.stack_pointer = self.stack_pointer + 1;
            }
            self.program_counter = o.addr;
        } else {
            let offset = if self.quirks.jump_to_x {
                self.v[o.x]
            } else {
                self.v[0]
            };
            self.program_counter = o.addr + offset as u16;
        }
    }

    /// Skip on a comparison with an immediate or another register.
    fn run_skip(&mut self, opcode: u16, o: Operands, random: u8)
        requires
            old(self).wf(),
            o == operands(opcode),
            o.x < 16 && o.y < 16 && o.nibble < 16 && o.addr < 4096 && o.class < 16,
            o.class == 3 || o.class == 4 || o.class == 5 || o.class == 9,
        ensures
            final(self).wf(),
            final(self)@ == exec_basic(old(self)@, opcode, random),
    {
        proof {
            reveal(exec_basic);
        }
        let vx = self.v[o.x];
        let vy = self.v[o.y];
        if o.class == 3 {
            self.skip_if(vx == o.byte);
        } else if o.class == 4 {
            self.skip_if(vx != o.byte);
        } else if o.nibble != 0 {
            self.halt(illegal(opcode));
            self.increment_program_counter();
        } else if o.class == 5 {
            self.skip_if(vx == vy);
        } else {
            self.skip_if(vx != vy);
        }
    }

    /// Load or add an immediate, set I, or draw a random byte.
    fn run_load(&mut self, opcode: u16, o: Operands, random: u8)
        requires
            old(self).wf(),
            !old(self)@.awaiting_key,
            o == operands(opcode),
            o.x < 16 && o.y < 16 && o.nibble < 16 && o.addr < 4096 && o.class < 16,
            o.class == 6 || o.class == 7 || o.class == 10 || o.class == 12,
        ensures
            final(self).wf(),
            final(self)@ == exec_basic(old(self)@, opcode, random),
    {
        proof {
            reveal(exec_basic);
        }
        let vx = self.v[o.x];
        if o.class == 6 {
            self.v[o.x] = o.byte;
        } else if o.class == 7 {
            self.v[o.x] = ((vx as u16 + o.byte as u16) % 256) as u8;
        } else if o.class == 10 {
            self.i = o.addr;
        } else {
            self.v[o.x] = random & o.byte;
        }
        self.increment_program_counter();
    }

    /// Copy Vy to Vx.
    fn run_copy(&mut self, opcode: u16, o: Operands)
        requires
            old(self).wf(),
            o == operands(opcode),
            o.x < 16 && o.y < 16 && o.nibble < 16 && o.addr < 4096 && o.class < 16,
            o.class == 8 && o.nibble == 0,
        ensures
            final(self).wf(),
            final(self)@ == exec_alu(old(self)@, opcode),
    {
        proof {
            reveal(exec_alu);
        }
        self.v[o.x] = self.v[o.y];
        self.increment_program_counter();
    }

    /// Set Vx to Vx OR Vy.
    fn run_or(&mut self, opcode: u16, o: Operands)
        requires
            old(self).wf(),
            o == operands(opcode),
            o.x < 16 && o.y < 16 && o.nibble < 16 && o.addr < 4096 && o.class < 16,
            o.class == 8 && o.nibble == 1,
        ensures
            final(self).wf(),
            final(self)@ == exec_alu(old(self)@, opcode),
    {
        proof {
            reveal(exec_alu);
        }
        self.v[o.x] = self.v[o.x] | self.v[o.y];
        if self.quirks.bitwise_reset_vf {
            self.set_flag(0);
        }
        self.increment_program_counter();
    }

    /// Set Vx to Vx AND Vy.
    fn run_and(&mut self, opcode: u16, o: Operands)
        requires
            old(self).wf(),
            o == operands(opcode),
            o.x < 16 && o.y < 16 && o.nibble < 16 && o.addr < 4096 && o.class < 16,
            o.class == 8 && o.nibble == 2,
        ensures
            final(self).wf(),
            final(self)@ == exec_alu(old(self)@, opcode),
    {
        proof {
            reveal(exec_alu);
        }
        self.v[o.x] = self.v[o.x] & self.v[o.y];
        if self.quirks.bitwise_reset_vf {
            self.set_flag(0);
        }
        self.increment_program_counter();
    }

    /// Set Vx to Vx XOR Vy.
    fn run_xor(&mut self, opcode: u16, o: Operands)
        requires
            old(self).wf(),
            o == operands(opcode),
            o.x < 16 && o.y < 16 && o.nibble < 16 && o.addr < 4096 && o.class < 16,
            o.class == 8 && o.nibble == 3,
        ensures
            final(self).wf(),
            final(self)@ == exec_alu(old(self)@, opcode),
    {
        proof {
            reveal(exec_alu);
        }
        self.v[o.x] = self.v[o.x] ^ self.v[o.y];
        if self.quirks.bitwise_reset_vf {
            self.set_flag(0);
        }
        self.increment_program_counter();
    }

    /// Add or subtract two registers, with the carry or borrow in VF.
    fn run_arith(&mut self, opcode: u16, o: Operands)
        requires
            old(self).wf(),
            !old(self)@.awaiting_key,
            o == operands(opcode),
            o.x < 16 && o.y < 16 && o.nibble < 16 && o.addr < 4096 && o.class < 16,
            o.class == 8 && (o.nibble == 4 || o.nibble == 5 || o.nibble == 7),
        ensures
            final(self).wf(),
            final(self)@ == exec_alu(old(self)@, opcode),
    {
        proof {
            reveal(exec_alu);
        }
        let x = o.x;
        let vx = self.v[x];
        let vy = self.v[o.y];
        if o.nibble == 4 {
            let sum = vx as u16 + vy as u16;
            self.v[x] = (sum % 256) as u8;
            self.set_flag(if sum > 255 { 1 } else { 0 });
        } else if o.nibble == 5 {
            self.v[x] = ((vx as u16 + 256 - vy as u16) % 256) as u8;
            self.set_flag(if vx >= vy { 1 } else { 0 });
        } else {
            self.v[x] = ((vy as u16 + 256 - vx as u16) % 256) as u8;
            self.set_flag(if vy >= vx { 1 } else { 0 });
        }
        self.increment_program_counter();
    }

    /// Shift by one bit, with the bit shifted out in VF, or refuse an unknown instruction of class 8.
    fn run_shift(&mut self, opcode: u16, o: Operands)
        requires
            old(self).wf(),
            !old(self)@.awaiting_key,
            o == operands(opcode),
            o.x < 16 && o.y < 16 && o.nibble < 16 && o.addr < 4096 && o.class < 16,
            o.class == 8 && o.nibble >= 4 && o.nibble != 4 && o.nibble != 5 && o.nibble != 7,
        ensures
            final(self).wf(),
            final(self)@ == exec_alu(old(self)@, opcode),
    {
        proof {
            reveal(exec_alu);
        }
        let x = o.x;
        let shift_source = if self.quirks.direct_shifting {
            self.v[x]
        } else {
            self.v[o.y]
        };
        if o.nibble == 6 {
            self.v[x] = shift_source / 2;
            self.set_flag(shift_source % 2);
        } else if o.nibble == 14 {
            self.v[x] = ((shift_source as u16 * 2) % 256) as u8;
            self.set_flag(shift_source / 128);
        } else {
            self.halt(illegal(opcode));
        }
        self.increment_program_counter();
    }

    /// Draw a sprite, unless it waits for the vblank or reaches past memory.
    #[verifier::rlimit(40)]
    fn run_draw(&mut self, opcode: u16, o: Operands)
        requires
            old(self).wf(),
            !old(self)@.awaiting_key,
            o == operands(opcode),
            o.x < 16 && o.y < 16 && o.nibble < 16 && o.addr < 4096 && o.class < 16,
            o.class == 13,
        ensures
            final(self).wf(),
            final(self)@ == exec_draw(old(self)@, opcode),
    {
        proof {
            reveal(exec_draw);
        }
        if self.quirks.wait_for_vblank && !self.vblank {
            return;
        }
        let wide = self.variant.supports_schip() && o.nibble == 0;
        let len: usize = if wide { 32 } else { o.nibble as usize };
        assert(wide == wide_sprite(old(self)@, opcode) && len == sprite_len(old(self)@, opcode));
        if self.i as usize + len > RAM_SIZE {
            self.halt(out_of_bounds(opcode));
            self.increment_program_counter();
            return;
        }
        let sprite = self.memory.read_bytes(self.i as usize, len);
        let vx = self.v[o.x];
        let vy = self.v[o.y];
        let hit = self.display.draw_sprite(
            &sprite,
            wide,
            vx,
            vy,
            self.highres,
            self.quirks.edge_clipping,
        );
        self.vblank = false;
        self.set_flag(if hit { 1 } else { 0 });
        self.increment_program_counter();
    }

    /// Skip on the state of a key.
    fn run_keys(&mut self, opcode: u16, o: Operands)
        requires
            old(self).wf(),
            !old(self)@.awaiting_key,
            o == operands(opcode),
            o.x < 16 && o.y < 16 && o.nibble < 16 && o.addr < 4096 && o.class < 16,
            o.class == 14,
        ensures
            final(self).wf(),
            final(self)@ == exec_keys(old(self)@, opcode),
    {
        proof {
            reveal(exec_keys);
        }
        let down = self.keypad[(self.v[o.x] % 16) as usize];
        if o.byte == 0x9E {
            self.skip_if(down);
        } else if o.byte == 0xA1 {
            self.skip_if(!down);
        } else {
            self.halt(illegal(opcode));
            self.increment_program_counter();
        }
    }

    /// Move between registers, timers and I, or wait for a key.
    fn run_registers(&mut self, opcode: u16, o: Operands)
        requires
            old(self).wf(),
            !old(self)@.awaiting_key,
            o == operands(opcode),
            o.x < 16 && o.y < 16 && o.nibble < 16 && o.addr < 4096 && o.class < 16,
            o.class == 15 && (o.byte == 0x07 || o.byte == 0x0A || o.byte == 0x15 || o.byte == 0x18 || o.byte == 0x1E || o.byte == 0x29 || (old(self)@.variant.spec_supports_schip() && o.byte == 0x30)),
        ensures
            final(self).wf(),
            final(self)@ == exec_misc(old(self)@, opcode),
    {
        proof {
            reveal(exec_misc);
        }
        let x = o.x;
        let vx = self.v[x];
        if o.byte == 0x07 {
            self.v[x] = self.delay;
        } else if o.byte == 0x0A {
            self.awaiting_key = true;
            self.key_destination = x;
        } else if o.byte == 0x15 {
            self.delay = vx;
        } else if o.byte == 0x18 {
            self.sound = vx;
        } else if o.byte == 0x1E {
            self.i = ((self.i as u32 + vx as u32) % 0x10000) as u16;
        } else if o.byte == 0x29 {
            self.i = (vx % 16) as u16 * 5;
        } else {
            self.i = (vx % 16) as u16 * 10 + 80;
        }
        self.increment_program_counter();
    }

    /// Write Vx in decimal to I, I + 1 and I + 2.
    fn run_bcd(&mut self, opcode: u16, o: Operands)
        requires
            old(self).wf(),
            !old(self)@.awaiting_key,
            o == operands(opcode),
            o.x < 16 && o.y < 16 && o.nibble < 16 && o.addr < 4096 && o.class < 16,
            o.class == 15 && !(o.byte == 0x07 || o.byte == 0x0A || o.byte == 0x15 || o.byte == 0x18 || o.byte == 0x1E || o.byte == 0x29 || (old(self)@.variant.spec_supports_schip() && o.byte == 0x30)) && o.byte == 0x33,
        ensures
            final(self).wf(),
            final(self)@ == exec_misc(old(self)@, opcode),
    {
        proof {
            reveal(exec_misc);
        }
        let vx = self.v[o.x];
        let at = self.i as usize;
        if at + 3 > RAM_SIZE {
            self.halt(out_of_bounds(opcode));
        } else {
            self.memory.ram[at] = vx / 100;
            self.memory.ram[at + 1] = (vx / 10) % 10;
            self.memory.ram[at + 2] = vx % 10;
        }
        self.increment_program_counter();
    }

    /// Write V0 to Vx to memory from I on.
    fn run_save(&mut self, opcode: u16, o: Operands)
        requires
            old(self).wf(),
            !old(self)@.awaiting_key,
            o == operands(opcode),
            o.x < 16 && o.y < 16 && o.nibble < 16 && o.addr < 4096 && o.class < 16,
            o.class == 15 && !(o.byte == 0x07 || o.byte == 0x0A || o.byte == 0x15 || o.byte == 0x18 || o.byte == 0x1E || o.byte == 0x29 || (old(self)@.variant.spec_supports_schip() && o.byte == 0x30)) && o.byte == 0x55,
        ensures
            final(self).wf(),
            final(self)@ == exec_misc(old(self)@, opcode),
    {
        proof {
            reveal(exec_misc);
        }
        let x = o.x;
        let at = self.i as usize;
        let ghost s = old(self)@;
        if at + x + 1 > RAM_SIZE {
            self.halt(out_of_bounds(opcode));
        } else {
                let mut k: usize = 0;
                while k <= x
                    invariant
                        x < 16,
                        at == s.i,
                        at + x + 1 <= RAM_SIZE,
                        k <= x + 1,
                        self.v@ == s.v,
                        self.memory.ram@.len() == RAM_SIZE,
                        forall|j: int|
                            0 <= j < RAM_SIZE ==> self.memory.ram@[j] == if at <= j < at + k {
                                s.v[j - at]
                            } else {
                                s.ram[j]
                            },
                        self@ == (Chip8View { ram: self.memory.ram@, ..s }),
                    decreases x + 1 - k,
                {
                    self.memory.ram[at + k] = self.v[k];
                    k = k + 1;
                }
            assert(self.memory.ram@ =~= Seq::new(
                s.ram.len(),
                |j: int| if s.i <= j <= s.i + x { s.v[j - s.i] } else { s.ram[j] },
            ));
            if !self.quirks.save_load_increment {
                self.i = ((self.i as u32 + x as u32 + 1) % 0x10000) as u16;
            }
        }
        self.increment_program_counter();
    }

    /// Read V0 to Vx from memory from I on.
    fn run_restore(&mut self, opcode: u16, o: Operands)
        requires
            old(self).wf(),
            !old(self)@.awaiting_key,
            o == operands(opcode),
            o.x < 16 && o.y < 16 && o.nibble < 16 && o.addr < 4096 && o.class < 16,
            o.class == 15 && !(o.byte == 0x07 || o.byte == 0x0A || o.byte == 0x15 || o.byte == 0x18 || o.byte == 0x1E || o.byte == 0x29 || (old(self)@.variant.spec_supports_schip() && o.byte == 0x30)) && o.byte == 0x65,
        ensures
            final(self).wf(),
            final(self)@ == exec_misc(old(self)@, opcode),
    {
        proof {
            reveal(exec_misc);
        }
        let x = o.x;
        let at = self.i as usize;
        let ghost s = old(self)@;
        if at + x + 1 > RAM_SIZE {
            self.halt(out_of_bounds(opcode));
        } else {
                let mut k: usize = 0;
                while k <= x
                    invariant
                        x < 16,
                        at == s.i,
                        at + x + 1 <= RAM_SIZE,
                        k <= x + 1,
                        self.memory.ram@ == s.ram,
                        self.v@.len() == 16,
                        forall|j: int|
                            0 <= j < 16 ==> self.v@[j] == if j < k { s.ram[at + j] } else { s.v[j] },
                        self@ == (Chip8View { v: self.v@, ..s }),
                    decreases x + 1 - k,
                {
                    self.v[k] = self.memory.ram[at + k];
                    k = k + 1;
                }
            assert(self.v@ =~= Seq::new(16, |j: int| if j <= x { s.ram[s.i + j] } else { s.v[j] }));
            if !self.quirks.save_load_increment {
                self.i = ((self.i as u32 + x as u32 + 1) % 0x10000) as u16;
            }
        }
        self.increment_program_counter();
    }

    /// Save V0 to Vx to the persistent flags or load them back, or refuse an unknown instruction of class F.
    fn run_flags(&mut self, opcode: u16, o: Operands)
        requires
            old(self).wf(),
            !old(self)@.awaiting_key,
            o == operands(opcode),
            o.x < 16 && o.y < 16 && o.nibble < 16 && o.addr < 4096 && o.class < 16,
            o.class == 15 && !(o.byte == 0x07 || o.byte == 0x0A || o.byte == 0x15 || o.byte == 0x18 || o.byte == 0x1E || o.byte == 0x29 || (old(self)@.variant.spec_supports_schip() && o.byte == 0x30)) && o.byte != 0x33 && o.byte != 0x55 && o.byte != 0x65,
        ensures
            final(self).wf(),
            final(self)@ == exec_misc(old(self)@, opcode),
    {
        proof {
            reveal(exec_misc);
        }
        let x = o.x;
        let schip = self.variant.supports_schip();
        let ghost s = old(self)@;
        if schip && o.byte == 0x75 && x < 8 {
            let mut k: usize = 0;
            while k <= x
                invariant
                    x < 8,
                    k <= x + 1,
                    self.v@ == s.v,
                    self.persistent_flags@.len() == 8,
                    forall|j: int|
                        0 <= j < 8 ==> self.persistent_flags@[j] == if j < k {
                            s.v[j]
                        } else {
                            s.persistent_flags[j]
                        },
                    self@ == (Chip8View { persistent_flags: self.persistent_flags@, ..s }),
                decreases x + 1 - k,
            {
                self.persistent_flags[k] = self.v[k];
                k = k + 1;
            }
            assert(self.persistent_flags@ =~= Seq::new(
                8,
                |j: int| if j <= x { s.v[j] } else { s.persistent_flags[j] },
            ));
            self.flags_pending = true;
        } else if schip && o.byte == 0x85 && x < 8 {
            let mut k: usize = 0;
            while k <= x
                invariant
                    x < 8,
                    k <= x + 1,
                    self.persistent_flags@ == s.persistent_flags,
                    self.v@.len() == 16,
                    forall|j: int|
                        0 <= j < 16 ==> self.v@[j] == if j < k {
                            s.persistent_flags[j]
                        } else {
                            s.v[j]
                        },
                    self@ == (Chip8View { v: self.v@, ..s }),
                decreases x + 1 - k,
            {
                self.v[k] = self.persistent_flags[k];
                k = k + 1;
            }
            assert(self.v@ =~= Seq::new(
                16,
                |j: int| if j <= x { s.persistent_flags[j] } else { s.v[j] },
            ));
        } else {
            self.halt(illegal(opcode));
        }
        self.increment_program_counter();
    }

    /// Execute an instruction, with `random` as the byte drawn by the
    /// random-number instruction `Cxnn`. Nothing happens while a key is awaited.
    pub fn execute_instruction_with(&mut self, opcode: u16, random: u8)
        requires
            old(self).wf(),
        ensures
            final(self).wf(),
            final(self)@ == execute(old(self)@, opcode, random),
    {
        if self.awaiting_key {
            return;
        }
        let o = decode(opcode);
        proof {
            lemma_operand_ranges(opcode);
        }
        let schip = self.variant.supports_schip();
        if o.class == 0 {
            if opcode == 0 || (schip && o.y == 0xC) {
                self.run_stop_or_scroll(opcode, o);
            } else if o.byte == 0xE0 {
                self.run_clear(opcode, o);
            } else if o.byte == 0xEE {
                self.run_return(opcode, o);
            } else {
                self.run_system_control(opcode, o);
            }
        } else if o.class == 6 || o.class == 7 || o.class == 10 || o.class == 12 {
            self.run_load(opcode, o, random);
        } else if o.class == 8 {
            if o.nibble == 0 {
                self.run_copy(opcode, o);
            } else if o.nibble == 1 {
                self.run_or(opcode, o);
            } else if o.nibble == 2 {
                self.run_and(opcode, o);
            } else if o.nibble == 3 {
                self.run_xor(opcode, o);
            } else if o.nibble == 4 || o.nibble == 5 || o.nibble == 7 {
                self.run_arith(opcode, o);
            } else {
                self.run_shift(opcode, o);
            }
        } else if o.class == 13 {
            self.run_draw(opcode, o);
        } else if o.class == 14 {
            self.run_keys(opcode, o);
        } else if o.class == 15 {
            if o.byte == 0x07 || o.byte == 0x0A || o.byte == 0x15 || o.byte == 0x18 || o.byte == 0x1E
                || o.byte == 0x29 || (schip && o.byte == 0x30) {
                self.run_registers(opcode, o);
            } else if o.byte == 0x33 {
                self.run_bcd(opcode, o);
            } else if o.byte == 0x55 {
                self.run_save(opcode, o);
            } else if o.byte == 0x65 {
                self.run_restore(opcode, o);
            } else {
                self.run_flags(opcode, o);
            }
        } else if o.class == 1 || o.class == 2 || o.class == 11 {
            self.run_jump(opcode, o, random);
        } else {
            self.run_skip(opcode, o, random);
        }
    }

    /// Execute an instruction. The random-number instruction `Cxnn` draws its
    /// byte from the thread's random number generator.
    pub fn execute_instruction(&mut self, opcode: u16)
        requires
            old(self).wf(),
        ensures
            final(self).wf(),
            exists|random: u8| final(self)@ == execute(old(self)@, opcode, random),
    {
        let random = if opcode >> 12 == 0xC {
            random_byte()
        } else {
            0
        };
        self.execute_instruction_with(opcode, random);
    }


    /// Run one cycle with `random` as the byte drawn by `Cxnn`: within two bytes
    /// of the end of memory stop; otherwise count the cycle and execute the
    /// instruction at the program counter. A halt message stays until a reset.
    pub fn execute_cycle_with(&mut self, random: u8)
        requires
            old(self).wf(),
        ensures
            final(self).wf(),
            final(self)@ == cycle(old(self)@, random),
    {
        if self.program_counter as usize >= RAM_SIZE - 2 {
            self.running = false;
            return;
        }
        self.frame_cycle = self.frame_cycle.saturating_add(1);
        let instruction = self.get_current_opcode();
        self.execute_instruction_with(instruction, random);
    }

    /// Run one cycle. The random-number instruction `Cxnn` draws its byte from
    /// the thread's random number generator.
    pub fn execute_cycle(&mut self)
        requires
            old(self).wf(),
        ensures
            final(self).wf(),
            exists|random: u8| final(self)@ == cycle(old(self)@, random),
    {
        let random = random_byte();
        self.execute_cycle_with(random);
    }

    /// The instruction word at the program counter.
    pub fn get_current_opcode(&self) -> (r: u16)
        requires
            self.wf(),
            self@.pc + 1 < RAM_SIZE,
        ensures
            r == fetch(self@),
    {
        self.memory.read_opcode(self.program_counter)
    }

    /// Read a byte from memory.
    pub fn read_byte(&self, address: u16) -> (r: u8)
        requires
            self.wf(),
            address < RAM_SIZE,
        ensures
            r == self@.ram[address as int],
    {
        self.memory.ram[address as usize]
    }

    /// Check whether the interpreter is executing instructions.
    pub fn is_running(&self) -> (r: bool)
        ensures
            r == self@.running,
    {
        self.running
    }

    /// Register V`i`.
    pub fn get_register(&self, i: usize) -> (r: u8)
        requires
            self.wf(),
            i < 16,
        ensures
            r == self@.v[i as int],
    {
        self.v[i]
    }

    /// The index register I.
    pub fn get_i(&self) -> (r: u16)
        ensures
            r == self@.i,
    {
        self.i
    }

    /// The program counter.
    pub fn get_program_counter(&self) -> (r: u16)
        ensures
            r == self@.pc,
    {
        self.program_counter
    }

    /// The stack pointer.
    pub fn get_stack_pointer(&self) -> (r: u8)
        ensures
            r == self@.sp,
    {
        self.stack_pointer
    }

    /// The capacity of the stack: 12 for CHIP-8, 16 for SUPER-CHIP and XO-CHIP.
    pub fn get_stack_size(&self) -> (r: usize)
        ensures
            r == self@.stack_size,
    {
        self.stack_size
    }

    /// Entry `i` of the stack.
    pub fn read_stack(&self, i: usize) -> (r: u16)
        requires
            self.wf(),
            i < self@.stack_size,
        ensures
            r == self@.stack[i as int],
    {
        self.stack[i]
    }

    /// The delay timer.
    pub fn get_delay(&self) -> (r: u8)
        ensures
            r == self@.delay,
    {
        self.delay
    }

    /// The sound timer.
    pub fn get_sound(&self) -> (r: u8)
        ensures
            r == self@.sound,
    {
        self.sound
    }

    /// The number of bytes of memory.
    pub fn ram_len(&self) -> (r: usize)
        requires
            self.wf(),
        ensures
            r == self@.ram.len(),
    {
        RAM_SIZE
    }

    /// The register that the next awaited key goes to.
    pub fn get_key_destination_register(&self) -> (r: usize)
        ensures
            r == self@.key_destination,
    {
        self.key_destination
    }

    /// Whether key `key` is down.
    pub fn get_key_state(&self, key: usize) -> (r: bool)
        requires
            self.wf(),
            key < 16,
        ensures
            r == self@.keypad[key as int],
    {
        self.keypad[key]
    }

    /// Whether execution waits for a key press.
    pub fn is_waiting_for_key(&self) -> (r: bool)
        ensures
            r == self@.awaiting_key,
    {
        self.awaiting_key
    }

    /// The SUPER-CHIP persistent flags.
    pub fn get_persistent_flags(&self) -> (r: [u8; 8])
        ensures
            r@ == self@.persistent_flags,
    {
        self.persistent_flags
    }

    /// Whether the 128x64 resolution is selected.
    pub fn is_highres(&self) -> (r: bool)
        ensures
            r == self@.highres,
    {
        self.highres
    }

    /// The variant the interpreter runs as.
    pub fn variant(&self) -> (r: Variant)
        ensures
            r == self@.variant,
    {
        self.variant
    }

    /// The number of cycles run in the current frame.
    pub fn frame_cycle(&self) -> (r: u32)
        ensures
            r == self@.frame_cycle,
    {
        self.frame_cycle
    }

    /// The screen buffer, row by row; the current resolution says how much of
    /// it is shown and how wide a row is.
    pub fn pixels(&self) -> (r: &Vec<bool>)
        ensures
            r@ == self@.pixels,
    {
        &self.display.pixels
    }

    /// The screen as a scaled-up image in two colors.
    pub fn get_display(&self, background_color: Color32, fill_color: Color32) -> ColorImage
        requires
            self.wf(),
    {
        self.display.render(self.highres, background_color, fill_color)
    }

    /// Replace the quirks as a whole.
    pub fn set_quirks(&mut self, quirks: Quirks)
        requires
            old(self).wf(),
        ensures
            final(self).wf(),
            final(self)@ == (Chip8View { quirks: quirks, ..old(self)@ }),
    {
        self.quirks = quirks;
    }

    /// Turn sound on or off.
    pub fn set_sound_on(&mut self, on: bool)
        requires
            old(self).wf(),
        ensures
            final(self).wf(),
            final(self)@ == (Chip8View { sound_on: on, ..old(self)@ }),
    {
        self.sound_on = on;
    }

    /// Set how many cycles the driver runs per frame.
    pub fn set_execution_speed(&mut self, speed: u32)
        requires
            old(self).wf(),
        ensures
            final(self).wf(),
            final(self)@ == (Chip8View { execution_speed: speed, ..old(self)@ }),
    {
        self.execution_speed = speed;
    }

    /// Why the interpreter halted, if it did since the last reset.
    pub fn halt_message(&self) -> (r: &Option<String>)
        ensures
            message_view(*r) == self@.halt_message,
    {
        &self.halt_message
    }
}

} // verus!
