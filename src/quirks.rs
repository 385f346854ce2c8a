use vstd::prelude::*;

verus! {

/// The behaviour switches of the interpreter.
///
/// Each switch selects between two historically divergent readings of the same
/// instruction. The value is replaced as a whole by the driver; the engine never
/// changes a single switch on its own.
#[derive(Debug, Default, PartialEq, Eq, Structural, PartialOrd, Ord, Hash, Clone, Copy)]
pub struct Quirks {
    /// If `true`, the `8xy1`, `8xy2` and `8xy3` instructions set VF to 0.
    /// If `false`, they leave VF alone.
    pub bitwise_reset_vf: bool,
    /// If `true`, the `8xy6` and `8xyE` instructions shift Vx in place.
    /// If `false`, they shift Vy and store the result in Vx.
    pub direct_shifting: bool,
    /// If `true`, the `Fx55` and `Fx65` instructions leave I unchanged.
    /// If `false`, they set I to I + x + 1.
    pub save_load_increment: bool,
    /// If `true`, the `Bnnn` instruction jumps to nnn + Vx.
    /// If `false`, it jumps to nnn + V0.
    pub jump_to_x: bool,
    /// If `true`, the draw instructions wait for the next vblank before drawing.
    /// If `false`, they draw at once.
    pub wait_for_vblank: bool,
    /// If `true`, sprites are clipped at the edges of the screen.
    /// If `false`, they wrap around to the opposite edge.
    pub edge_clipping: bool,
    /// If `true`, the scroll instructions move the low-resolution screen by half
    /// the amount they name. Off in every preset.
    pub lowres_scroll: bool,
}

impl Quirks {
    /// The quirks of the CHIP-8 interpreter of the COSMAC VIP.
    pub open spec fn spec_vip_chip() -> Quirks {
        Quirks {
            bitwise_reset_vf: true,
            direct_shifting: false,
            save_load_increment: false,
            jump_to_x: false,
            wait_for_vblank: true,
            edge_clipping: true,
            lowres_scroll: false,
        }
    }

    /// The quirks of the CHIP-8 interpreter of the COSMAC VIP.
    #[verifier::when_used_as_spec(spec_vip_chip)]
    pub fn vip_chip() -> (r: Quirks)
        ensures
            r == Self::spec_vip_chip(),
    {
        Quirks {
            bitwise_reset_vf: true,
            direct_shifting: false,
            save_load_increment: false,
            jump_to_x: false,
            wait_for_vblank: true,
            edge_clipping: true,
            lowres_scroll: false,
        }
    }

    /// The default quirks of the Octo emulator.
    pub open spec fn spec_octo_chip() -> Quirks {
        Quirks {
            bitwise_reset_vf: false,
            direct_shifting: false,
            save_load_increment: false,
            jump_to_x: false,
            wait_for_vblank: false,
            edge_clipping: false,
            lowres_scroll: false,
        }
    }

    /// The default quirk configuration of the Octo emulator: every switch off.
    #[verifier::when_used_as_spec(spec_octo_chip)]
    pub fn octo_chip() -> (r: Quirks)
        ensures
            r == Self::spec_octo_chip(),
    {
        Quirks {
            bitwise_reset_vf: false,
            direct_shifting: false,
            save_load_increment: false,
            jump_to_x: false,
            wait_for_vblank: false,
            edge_clipping: false,
            lowres_scroll: false,
        }
    }

    /// The quirks of SUPER-CHIP 1.1.
    pub open spec fn spec_super_chip1_1() -> Quirks {
        Quirks {
            bitwise_reset_vf: false,
            direct_shifting: true,
            save_load_increment: true,
            jump_to_x: true,
            wait_for_vblank: false,
            edge_clipping: true,
            lowres_scroll: false,
        }
    }

    /// The quirks of SUPER-CHIP 1.1.
    #[verifier::when_used_as_spec(spec_super_chip1_1)]
    pub fn super_chip1_1() -> (r: Quirks)
        ensures
            r == Self::spec_super_chip1_1(),
    {
        Quirks {
            bitwise_reset_vf: false,
            direct_shifting: true,
            save_load_increment: true,
            jump_to_x: true,
            wait_for_vblank: false,
            edge_clipping: true,
            lowres_scroll: false,
        }
    }
}

/// The feature tier that the interpreter runs as.
#[derive(Debug, Clone, Copy, PartialEq, Eq, Structural, PartialOrd, Ord, Hash)]
pub enum Variant {
    /// The baseline CHIP-8 instruction set.
    CHIP8,
    /// SUPER-CHIP 1.1: a 128x64 screen, scrolling, large sprites and persistent flags.
    SCHIP11,
    /// XO-CHIP, run with the SUPER-CHIP 1.1 instruction set.
    XOCHIP,
}

impl Variant {
    /// Whether the extended (SUPER-CHIP) instructions are legal.
    pub open spec fn spec_supports_schip(&self) -> bool {
        !(self is CHIP8)
    }

    /// Check whether the variant supports all features introduced by SUPER-CHIP.
    #[verifier::when_used_as_spec(spec_supports_schip)]
    pub fn supports_schip(&self) -> (r: bool)
        ensures
            r == self.spec_supports_schip(),
    {
        match self {
            Variant::CHIP8 => false,
            Variant::SCHIP11 => true,
            Variant::XOCHIP => true,
        }
    }
}

} // verus!
