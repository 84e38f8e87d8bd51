//! The fixed bit-fields of a 32-bit MIPS instruction word.

use vstd::prelude::*;

verus! {

/// Primary opcode, bits 31..26.
pub open spec fn op_of(w: u32) -> u32 {
    (w >> 26) & 0x3f
}

/// Source register index, bits 25..21.
pub open spec fn rs_of(w: u32) -> u32 {
    (w >> 21) & 0x1f
}

/// Target register index, bits 20..16.
pub open spec fn rt_of(w: u32) -> u32 {
    (w >> 16) & 0x1f
}

/// Destination register index, bits 15..11.
pub open spec fn rd_of(w: u32) -> u32 {
    (w >> 11) & 0x1f
}

/// Shift amount, bits 10..6.
pub open spec fn shamt_of(w: u32) -> u32 {
    (w >> 6) & 0x1f
}

/// Function code of an R-type instruction, bits 5..0.
pub open spec fn funct_of(w: u32) -> u32 {
    w & 0x3f
}

/// The 16-bit immediate, bits 15..0, read as a signed two's-complement value.
pub open spec fn imm_of(w: u32) -> i16 {
    (w & 0xffff) as i16
}

/// The 26-bit jump target field, bits 25..0.
pub open spec fn target_of(w: u32) -> u32 {
    w & 0x03ff_ffff
}

/// The sub-opcode of the REGIMM branch group, bits 20..16 (the `rt` slot).
pub open spec fn regimm_of(w: u32) -> u32 {
    (w >> 16) & 0x1f
}

/// Every field fits its fixed width; in particular all register indices
/// are below 32 by construction.
pub proof fn lemma_field_bounds(w: u32)
    ensures
        op_of(w) < 64,
        rs_of(w) < 32,
        rt_of(w) < 32,
        rd_of(w) < 32,
        shamt_of(w) < 32,
        funct_of(w) < 64,
        target_of(w) < 0x0400_0000,
        regimm_of(w) < 32,
{
    assert((w >> 26) & 0x3f < 64 && (w >> 21) & 0x1f < 32 && (w >> 16) & 0x1f < 32 && (w >> 11)
        & 0x1f < 32 && (w >> 6) & 0x1f < 32 && w & 0x3f < 64 && w & 0x03ff_ffff < 0x0400_0000)
        by (bit_vector);
}

} // verus!
