use vstd::prelude::*;

verus! {

/// The operand fields of a 16-bit instruction word.
#[derive(Debug, Clone, Copy, PartialEq, Eq, Structural)]
pub struct Operands {
    /// The top nibble: the instruction class.
    pub class: u8,
    /// The low 12 bits: an address.
    pub addr: u16,
    /// The second nibble: a register index.
    pub x: usize,
    /// The third nibble: a register index.
    pub y: usize,
    /// The low byte: an immediate value.
    pub byte: u8,
    /// The low nibble.
    pub nibble: u8,
}

/// The fields of `opcode`, each cut out of it at a fixed place.
#[verifier::opaque]
pub open spec fn operands(opcode: u16) -> Operands {
    Operands {
        class: (opcode / 4096) as u8,
        addr: opcode % 4096,
        x: ((opcode / 256) % 16) as usize,
        y: ((opcode / 16) % 16) as usize,
        byte: (opcode % 256) as u8,
        nibble: (opcode % 16) as u8,
    }
}

/// The ranges of the operand fields.
pub proof fn lemma_operand_ranges(opcode: u16)
    ensures
        operands(opcode).class < 16,
        operands(opcode).x < 16,
        operands(opcode).y < 16,
        operands(opcode).nibble < 16,
        operands(opcode).addr < 4096,
{
    reveal(operands);
}

/// Split an instruction word into its operand fields by masking.
pub fn decode(opcode: u16) -> (r: Operands)
    ensures
        r == operands(opcode),
{
    reveal(operands);
    assert(opcode >> 12 == opcode / 4096) by (bit_vector);
    assert(opcode & 0x0FFF == opcode % 4096) by (bit_vector);
    assert((opcode & 0x0F00) >> 8 == (opcode / 256) % 16) by (bit_vector);
    assert((opcode & 0x00F0) >> 4 == (opcode / 16) % 16) by (bit_vector);
    assert(opcode & 0x00FF == opcode % 256) by (bit_vector);
    assert(opcode & 0x000F == opcode % 16) by (bit_vector);
    Operands {
        class: (opcode >> 12) as u8,
        addr: opcode & 0x0FFF,
        x: ((opcode & 0x0F00) >> 8) as usize,
        y: ((opcode & 0x00F0) >> 4) as usize,
        byte: (opcode & 0x00FF) as u8,
        nibble: (opcode & 0x000F) as u8,
    }
}

/// Decoding is a function of the word alone, its fields lie in their ranges
/// and put the word back together, so two words with the same fields are the
/// same word.
pub proof fn lemma_decode_fields(opcode: u16, other: u16)
    ensures
        operands(opcode).class < 16,
        operands(opcode).x < 16,
        operands(opcode).y < 16,
        operands(opcode).nibble < 16,
        operands(opcode).byte == operands(opcode).y * 16 + operands(opcode).nibble,
        operands(opcode).addr == operands(opcode).x * 256 + operands(opcode).byte,
        opcode == operands(opcode).class * 4096 + operands(opcode).addr,
        operands(opcode) == operands(other) <==> opcode == other,
{
    reveal(operands);
}

} // verus!
