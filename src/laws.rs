//! Properties of the machine that relate several instructions, or hold of
//! every state, proved from the contracts of the instruction bodies.

use crate::rumdis::field_value;
use crate::rumdis::opcode_of;
use crate::um::{
    executes, immediate, load_post, load_program_post, map_post, nand, outcome, sel_c, sel_load,
    store_post, unmap_post, Event, Fault, NUM_REGISTERS, VM,
};
use vstd::arithmetic::power2::{lemma2_to64, pow2};
use vstd::prelude::*;

verus! {

/// Every register holds a 32-bit unsigned value, and there are exactly eight.
pub proof fn lemma_registers_are_words(s: VM)
    requires
        s.wf(),
    ensures
        s.regs().len() == NUM_REGISTERS,
        forall|i: int| 0 <= i < s.regs().len() ==> 0 <= #[trigger] s.regs()[i] < 0x1_0000_0000,
{
    s.lemma_wf_facts();
}

/// Segment zero is mapped in every well-formed state.
pub proof fn lemma_segment_zero_mapped(s: VM)
    requires
        s.wf(),
    ensures
        s.is_mapped(0),
        s.seg_count() >= 1,
{
    s.lemma_wf_facts();
}

/// The faults the instruction set names: a decode fault above opcode 13,
/// division by zero, unmapping identifier zero or an identifier that is not
/// mapped, and output of a value above 255. `VM::step` returns the fault and
/// leaves the state as it was.
pub proof fn lemma_fault_conditions(s: VM, w: u32)
    requires
        s.wf(),
    ensures
        opcode_of(w) > 13 ==> outcome(s, w) == Err::<Event, Fault>(Fault::InvalidOpcode),
        opcode_of(w) == 5 && s.regs()[sel_c(w)] == 0 ==> outcome(s, w) == Err::<Event, Fault>(
            Fault::DivisionByZero,
        ),
        opcode_of(w) == 9 && (s.regs()[sel_c(w)] == 0 || !s.is_mapped(s.regs()[sel_c(w)] as int))
            ==> outcome(s, w) == Err::<Event, Fault>(Fault::IllegalUnmap),
        opcode_of(w) == 10 && s.regs()[sel_c(w)] > 255 ==> outcome(s, w) == Err::<Event, Fault>(
            Fault::OutputRange,
        ),
{
}

/// A segment just mapped is non-zero and reads as zero at every index
/// below its requested length.
pub proof fn lemma_fresh_segment_reads_zero(
    s0: VM,
    s1: VM,
    s2: VM,
    b: int,
    c: int,
    a2: int,
    b2: int,
    c2: int,
)
    requires
        s0.wf(),
        0 <= b < NUM_REGISTERS && 0 <= c < NUM_REGISTERS,
        0 <= a2 < NUM_REGISTERS && 0 <= b2 < NUM_REGISTERS && 0 <= c2 < NUM_REGISTERS,
        map_post(s0, s1, b, c),
        s1.regs()[b2] == s1.regs()[b],
        s1.regs()[c2] < s0.regs()[c],
        load_post(s1, s2, a2, b2, c2),
    ensures
        s1.regs()[b] != 0,
        s2.regs()[a2] == 0,
{
    s0.lemma_wf_facts();
}

/// Right after segment `k` is unmapped, the next map returns `k` again,
/// zero-filled, and `k` is off the free list once more.
pub proof fn lemma_unmap_then_map_reuses(s0: VM, s1: VM, s2: VM, c: int, b: int, c2: int)
    requires
        s0.wf(),
        0 <= c < NUM_REGISTERS,
        0 <= b < NUM_REGISTERS && 0 <= c2 < NUM_REGISTERS,
        unmap_post(s0, s1, c),
        map_post(s1, s2, b, c2),
    ensures
        s2.regs()[b] == s0.regs()[c],
        s2.is_mapped(s0.regs()[c] as int),
        s2.seg(s0.regs()[c] as int) == Seq::new(s1.regs()[c2] as nat, |i: int| 0u32),
        s2.free_ids() == s0.free_ids(),
        !s2.free_ids().contains(s0.regs()[c] as usize),
{
    s0.lemma_wf_facts();
    s2.lemma_wf_facts();
    assert(s1.free_ids().drop_last() =~= s0.free_ids());
}

/// NAND of a value with itself is its complement, and AND and OR can be
/// built from NAND alone.
pub proof fn lemma_nand_universal(x: u32, y: u32)
    ensures
        nand(x, x) == !x,
        nand(nand(x, y), nand(x, y)) == x & y,
        nand(nand(x, x), nand(y, y)) == x | y,
{
    assert(!(x & x) == !x) by (bit_vector);
    assert(!(!(x & y) & !(x & y)) == x & y) by (bit_vector);
    assert(!(!(x & x) & !(y & y)) == x | y) by (bit_vector);
}

/// Load-immediate puts its 25-bit immediate into the load register, so the
/// register ends up below 2^25.
pub proof fn lemma_load_immediate_range(m: VM, t: VM, w: u32)
    requires
        m.wf(),
        field_value(w, 4, 28) == 13,
        executes(m, t, w),
    ensures
        t.regs()[sel_load(w)] == immediate(w),
        immediate(w) < 0x200_0000,
{
    m.lemma_wf_facts();
    lemma2_to64();
    assert(field_value(w, 3, 25) < pow2(3)) by {
        vstd::arithmetic::power2::lemma_pow2_pos(3);
        vstd::arithmetic::power2::lemma_pow2_pos(25);
    }
    assert(field_value(w, 25, 0) < pow2(25)) by {
        vstd::arithmetic::power2::lemma_pow2_pos(25);
        vstd::arithmetic::power2::lemma_pow2_pos(0);
    }
}

/// Load Program from segment zero is a pure jump: segment zero and the
/// registers are unchanged, only the program counter moves.
pub proof fn lemma_jump_keeps_program(s: VM, t: VM, b: int, c: int)
    requires
        s.wf(),
        0 <= b < NUM_REGISTERS && 0 <= c < NUM_REGISTERS,
        s.regs()[b] == 0,
        load_program_post(s, t, b, c),
    ensures
        t.seg(0) == s.seg(0),
        t.regs() == s.regs(),
        t.pc() == s.regs()[c] as int,
{
}

/// After Load Program copies segment `k != 0` into segment zero, a store
/// into segment `k` leaves segment zero as it was.
pub proof fn lemma_clone_independent(
    s0: VM,
    s1: VM,
    s2: VM,
    b: int,
    c: int,
    a2: int,
    b2: int,
    c2: int,
)
    requires
        s0.wf(),
        0 <= b < NUM_REGISTERS && 0 <= c < NUM_REGISTERS,
        0 <= a2 < NUM_REGISTERS && 0 <= b2 < NUM_REGISTERS && 0 <= c2 < NUM_REGISTERS,
        s0.regs()[b] != 0,
        load_program_post(s0, s1, b, c),
        s1.regs()[a2] == s0.regs()[b],
        store_post(s1, s2, a2, b2, c2),
    ensures
        s1.seg(0) == s0.seg(s0.regs()[b] as int),
        s2.seg(0) == s1.seg(0),
{
    s1.lemma_wf_facts();
}

} // verus!
