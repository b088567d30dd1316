//! Decoding of 32-bit instruction words into opcodes and operand fields.

use vstd::arithmetic::power2::pow2;
use vstd::bits::{
    lemma_u32_low_bits_mask_is_mod, lemma_u32_pow2_no_overflow, lemma_u32_shl_is_mul,
    lemma_u32_shr_is_div, low_bits_mask,
};
use vstd::prelude::*;

verus! {

/// A bit field of an instruction word: `width` bits starting at bit `lsb`.
#[derive(Clone, Copy, Debug, PartialEq, Eq)]
pub struct Field {
    pub width: u32,
    pub lsb: u32,
}

/// Width of a register selector.
pub const SELECTOR_WIDTH: u32 = 3;

/// Width of the immediate value of the load-immediate instruction.
pub const IMMEDIATE_WIDTH: u32 = 25;

/// Width of the opcode.
pub const OPCODE_WIDTH: u32 = 4;

impl Field {
    /// A field is usable when both its width and its position fit in a word.
    pub open spec fn wf(self) -> bool {
        self.width < 32 && self.lsb < 32
    }

    pub fn new(width: u32, lsb: u32) -> (r: Field)
        ensures
            r.width == width,
            r.lsb == lsb,
    {
        Field { width, lsb }
    }
}

/// Register selector A of a standard instruction (bits 8..6).
pub fn ra() -> (f: Field)
    ensures
        f.width == 3 && f.lsb == 6,
{
    Field::new(SELECTOR_WIDTH, 6)
}

/// Register selector B of a standard instruction (bits 5..3).
pub fn rb() -> (f: Field)
    ensures
        f.width == 3 && f.lsb == 3,
{
    Field::new(SELECTOR_WIDTH, 3)
}

/// Register selector C of a standard instruction (bits 2..0).
pub fn rc() -> (f: Field)
    ensures
        f.width == 3 && f.lsb == 0,
{
    Field::new(SELECTOR_WIDTH, 0)
}

/// The load register of the load-immediate instruction (bits 27..25).
pub fn rl() -> (f: Field)
    ensures
        f.width == 3 && f.lsb == 25,
{
    Field::new(SELECTOR_WIDTH, 25)
}

/// The immediate value of the load-immediate instruction (bits 24..0).
pub fn vl() -> (f: Field)
    ensures
        f.width == 25 && f.lsb == 0,
{
    Field::new(IMMEDIATE_WIDTH, 0)
}

/// The opcode (bits 31..28).
pub fn op_field() -> (f: Field)
    ensures
        f.width == 4 && f.lsb == 28,
{
    Field::new(OPCODE_WIDTH, 28)
}

/// The unsigned number held in `width` bits of `w` starting at bit `lsb`.
pub open spec fn field_value(w: u32, width: nat, lsb: nat) -> nat {
    (w as nat / pow2(lsb)) % pow2(width)
}

/// The opcode of an instruction word: its top four bits.
pub open spec fn opcode_of(w: u32) -> nat {
    field_value(w, 4, 28)
}

/// A word with the low `bits` bits set.
fn mask(bits: u32) -> (r: u32)
    requires
        bits < 32,
    ensures
        r as nat == low_bits_mask(bits as nat),
        r as nat == pow2(bits as nat) - 1,
{
    proof {
        lemma_u32_pow2_no_overflow(bits as nat);
        vstd::arithmetic::power2::lemma_pow2_pos(bits as nat);
        lemma_u32_shl_is_mul(1, bits);
    }
    (1u32 << bits) - 1
}

/// Extracts the field `field` from the instruction word `instruction`.
pub fn get(field: &Field, instruction: u32) -> (r: u32)
    requires
        field.wf(),
    ensures
        r as nat == field_value(instruction, field.width as nat, field.lsb as nat),
        (r as nat) < pow2(field.width as nat),
{
    let m = mask(field.width);
    let shifted = instruction >> field.lsb;
    let r = shifted & m;
    proof {
        lemma_u32_shr_is_div(instruction, field.lsb);
        lemma_u32_low_bits_mask_is_mod(shifted, field.width as nat);
        lemma_u32_pow2_no_overflow(field.width as nat);
        vstd::arithmetic::power2::lemma_pow2_pos(field.width as nat);
        vstd::arithmetic::power2::lemma_pow2_pos(field.lsb as nat);
    }
    r
}

/// The opcode of an instruction word.
pub fn op(instruction: u32) -> (r: u32)
    ensures
        r as nat == opcode_of(instruction),
        r < 16,
{
    let f = op_field();
    let r = get(&f, instruction);
    proof {
        vstd::arithmetic::power2::lemma2_to64();
    }
    r
}

} // verus!
