use vstd::prelude::*;

verus! {

/// The hexadecimal digits, in upper case.
pub open spec fn hex_digits() -> Seq<char> {
    seq!['0', '1', '2', '3', '4', '5', '6', '7', '8', '9', 'A', 'B', 'C', 'D', 'E', 'F']
}

/// A word written as four upper-case hexadecimal digits.
pub open spec fn hex4(w: u16) -> Seq<char> {
    seq![
        hex_digits()[(w / 4096) as int],
        hex_digits()[((w / 256) % 16) as int],
        hex_digits()[((w / 16) % 16) as int],
        hex_digits()[(w % 16) as int],
    ]
}

/// The halt message for an instruction that is not known or not supported.
pub open spec fn illegal_message(opcode: u16) -> Seq<char> {
    "Illegal instruction: "@ + hex4(opcode)
}

/// The halt message for a machine code routine call.
pub open spec fn machine_code_message(opcode: u16) -> Seq<char> {
    "Machine code routines are not supported: "@ + hex4(opcode)
        + ". Try a different CHIP-8 variant."@
}

/// The halt message for an instruction that reaches past the end of memory.
pub open spec fn out_of_bounds_message(opcode: u16) -> Seq<char> {
    "Memory access out of bounds: "@ + hex4(opcode)
}

/// The one-character string of a hexadecimal digit.
fn hex_digit(d: u16) -> (r: &'static str)
    requires
        d < 16,
    ensures
        r@ == seq![hex_digits()[d as int]],
{
    let r = match d {
        0 => "0",
        1 => "1",
        2 => "2",
        3 => "3",
        4 => "4",
        5 => "5",
        6 => "6",
        7 => "7",
        8 => "8",
        9 => "9",
        10 => "A",
        11 => "B",
        12 => "C",
        13 => "D",
        14 => "E",
        _ => "F",
    };
    proof {
        reveal_strlit("0");
        reveal_strlit("1");
        reveal_strlit("2");
        reveal_strlit("3");
        reveal_strlit("4");
        reveal_strlit("5");
        reveal_strlit("6");
        reveal_strlit("7");
        reveal_strlit("8");
        reveal_strlit("9");
        reveal_strlit("A");
        reveal_strlit("B");
        reveal_strlit("C");
        reveal_strlit("D");
        reveal_strlit("E");
        reveal_strlit("F");
        assert(r@ =~= seq![hex_digits()[d as int]]);
    }
    r
}

/// Append the four hexadecimal digits of `w` to `s`.
fn push_hex4(s: &mut String, w: u16)
    ensures
        final(s)@ == old(s)@ + hex4(w),
{
    let ghost start = s@;
    s.append(hex_digit(w / 4096));
    s.append(hex_digit((w / 256) % 16));
    s.append(hex_digit((w / 16) % 16));
    s.append(hex_digit(w % 16));
    assert(s@ =~= start + hex4(w));
}

/// The halt message for an instruction that is not known or not supported.
pub fn illegal(opcode: u16) -> (r: String)
    ensures
        r@ == illegal_message(opcode),
{
    let mut s = String::from_str("Illegal instruction: ");
    push_hex4(&mut s, opcode);
    s
}

/// The halt message for a machine code routine call.
pub fn machine_code(opcode: u16) -> (r: String)
    ensures
        r@ == machine_code_message(opcode),
{
    let mut s = String::from_str("Machine code routines are not supported: ");
    push_hex4(&mut s, opcode);
    s.append(". Try a different CHIP-8 variant.");
    s
}

/// The halt message for an instruction that reaches past the end of memory.
pub fn out_of_bounds(opcode: u16) -> (r: String)
    ensures
        r@ == out_of_bounds_message(opcode),
{
    let mut s = String::from_str("Memory access out of bounds: ");
    push_hex4(&mut s, opcode);
    s
}

} // verus!
