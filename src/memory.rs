use vstd::prelude::*;

verus! {

/// The number of addressable bytes.
pub const RAM_SIZE: usize = 4096;

/// The address at which programs are loaded.
pub const PROGRAM_START: usize = 0x200;

/// The number of bytes of the built-in font: 16 glyphs of 5 bytes.
pub const FONT_SIZE: usize = 80;

/// The largest program that fits between `PROGRAM_START` and the end of memory.
pub const PROGRAM_CAPACITY: usize = 3584;

/// The built-in hexadecimal font, one glyph of 5 rows for each digit 0 to F.
pub const FONT: [u8; 80] = [
    0xF0, 0x90, 0x90, 0x90, 0xF0, // 0
    0x20, 0x60, 0x20, 0x20, 0x70, // 1
    0xF0, 0x10, 0xF0, 0x80, 0xF0, // 2
    0xF0, 0x10, 0xF0, 0x10, 0xF0, // 3
    0x90, 0x90, 0xF0, 0x10, 0x10, // 4
    0xF0, 0x80, 0xF0, 0x10, 0xF0, // 5
    0xF0, 0x80, 0xF0, 0x90, 0xF0, // 6
    0xF0, 0x10, 0x20, 0x40, 0x40, // 7
    0xF0, 0x90, 0xF0, 0x90, 0xF0, // 8
    0xF0, 0x90, 0xF0, 0x10, 0xF0, // 9
    0xF0, 0x90, 0xF0, 0x90, 0x90, // A
    0xE0, 0x90, 0xE0, 0x90, 0xE0, // B
    0xF0, 0x80, 0x80, 0x80, 0xF0, // C
    0xE0, 0x90, 0x90, 0x90, 0xE0, // D
    0xF0, 0x80, 0xF0, 0x80, 0xF0, // E
    0xF0, 0x80, 0xF0, 0x80, 0x80, // F
];

/// The font as a sequence of bytes.
pub open spec fn font() -> Seq<u8> {
    FONT@
}

/// Memory as it is after a reset: the font at address 0, zero everywhere else.
pub open spec fn fresh_ram() -> Seq<u8> {
    Seq::new(RAM_SIZE as nat, |i: int| if i < FONT_SIZE { font()[i] } else { 0u8 })
}

/// `ram` with the bytes of `program` written from `PROGRAM_START` on.
pub open spec fn with_program(ram: Seq<u8>, program: Seq<u8>) -> Seq<u8> {
    Seq::new(
        ram.len(),
        |i: int|
            if PROGRAM_START <= i < PROGRAM_START + program.len() {
                program[i - PROGRAM_START]
            } else {
                ram[i]
            },
    )
}

/// The big-endian 16-bit word made of two bytes.
pub open spec fn word(hi: u8, lo: u8) -> u16 {
    ((hi as int) * 256 + lo as int) as u16
}

/// A program that does not fit in memory.
#[derive(Debug, Clone, Copy, PartialEq, Eq, Structural)]
pub struct ProgramTooLarge {
    /// The length of the program that was refused.
    pub size: usize,
    /// The number of bytes available for a program.
    pub capacity: usize,
}

/// The 4 KiB memory of the machine.
#[derive(Debug, PartialEq, Eq, PartialOrd, Ord, Hash, Clone, Copy)]
pub struct Memory {
    /// 4 KiB of RAM. Addresses below 0x200 are reserved for the interpreter.
    pub ram: [u8; 4096],
}

impl Memory {
    /// Create memory holding the font and zeros elsewhere.
    pub fn new() -> (r: Memory)
        ensures
            r.ram@ == fresh_ram(),
    {
        let mut mem = Memory { ram: [0u8; 4096] };
        mem.reset();
        mem
    }

    /// Zero all memory and write the font again.
    pub fn reset(&mut self)
        ensures
            final(self).ram@ == fresh_ram(),
    {
        self.ram = [0u8; 4096];
        let mut i: usize = 0;
        while i < FONT_SIZE
            invariant
                i <= FONT_SIZE,
                forall|j: int| 0 <= j < i ==> self.ram@[j] == font()[j],
                forall|j: int| i <= j < RAM_SIZE ==> self.ram@[j] == 0u8,
            decreases FONT_SIZE - i,
        {
            self.ram[i] = FONT[i];
            i = i + 1;
        }
        assert(self.ram@ =~= fresh_ram());
    }

    /// Copy a program to memory starting at address 0x200.
    ///
    /// A program longer than the space left after 0x200 is refused and memory
    /// is left as it was.
    pub fn load_program(&mut self, rom: &[u8]) -> (r: Result<(), ProgramTooLarge>)
        ensures
            rom@.len() <= PROGRAM_CAPACITY ==> r is Ok && final(self).ram@ == with_program(
                old(self).ram@,
                rom@,
            ),
            rom@.len() > PROGRAM_CAPACITY ==> r == Err::<(), ProgramTooLarge>(
                ProgramTooLarge { size: rom@.len() as usize, capacity: PROGRAM_CAPACITY },
            ) && *final(self) == *old(self),
    {
        if rom.len() > PROGRAM_CAPACITY {
            return Err(ProgramTooLarge { size: rom.len(), capacity: PROGRAM_CAPACITY });
        }
        let ghost start = self.ram@;
        let mut i: usize = 0;
        while i < rom.len()
            invariant
                i <= rom@.len() <= PROGRAM_CAPACITY,
                self.ram@.len() == RAM_SIZE,
                forall|j: int|
                    0 <= j < RAM_SIZE ==> self.ram@[j] == (if PROGRAM_START <= j < PROGRAM_START + i {
                        rom@[j - PROGRAM_START]
                    } else {
                        start[j]
                    }),
            decreases rom@.len() - i,
        {
            self.ram[PROGRAM_START + i] = rom[i];
            i = i + 1;
        }
        assert(self.ram@ =~= with_program(start, rom@));
        Ok(())
    }

    /// The `len` bytes from `start` on.
    pub(crate) fn read_bytes(&self, start: usize, len: usize) -> (r: Vec<u8>)
        requires
            start + len <= RAM_SIZE,
        ensures
            r@ == self.ram@.subrange(start as int, start + len),
    {
        let mut out: Vec<u8> = Vec::with_capacity(len);
        let mut k: usize = 0;
        while k < len
            invariant
                k <= len,
                start + len <= RAM_SIZE,
                out@ == self.ram@.subrange(start as int, start + k),
            decreases len - k,
        {
            out.push(self.ram[start + k]);
            k = k + 1;
            assert(out@ =~= self.ram@.subrange(start as int, start + k));
        }
        out
    }

    /// Read the two bytes at `address` and combine them, big-endian, into an instruction.
    pub fn read_opcode(&self, address: u16) -> (r: u16)
        requires
            address as int + 1 < RAM_SIZE,
        ensures
            r == word(self.ram@[address as int], self.ram@[address as int + 1]),
    {
        let hi = self.ram[address as usize] as u16;
        let lo = self.ram[address as usize + 1] as u16;
        hi * 256 + lo
    }
}

} // verus!
