//! The machine: eight registers, a table of numbered segments with a LIFO
//! list of identifiers for reuse, and a program counter into segment zero.
//!
//! Each instruction body is a function whose contract is a named predicate
//! relating the machine before and after it; [`VM::step`] fetches, decodes,
//! detects faults and dispatches to those bodies.

use crate::rumdis;
use crate::rumdis::{field_value, opcode_of};
use vstd::prelude::*;

verus! {

/// Number of general-purpose registers.
pub const NUM_REGISTERS: usize = 8;

/// The largest number of segments the table may hold: identifiers are 32-bit.
pub const MAX_SEGMENTS: u64 = 0x1_0000_0000;

/// Why the machine stopped with an error.
#[derive(Clone, Copy, Debug, PartialEq, Eq, Structural)]
pub enum Fault {
    /// The program counter is outside segment zero at fetch time.
    ProgramCounter,
    /// The opcode of the fetched word is greater than 13.
    InvalidOpcode,
    /// Division with a zero divisor.
    DivisionByZero,
    /// Unmap of segment zero or of an identifier that is not mapped.
    IllegalUnmap,
    /// Access to an unmapped segment, or to an index outside a mapped one.
    IllegalAccess,
    /// Output of a value greater than 255.
    OutputRange,
    /// No identifier is left for a new segment.
    SegmentLimit,
}

/// What the machine asks of its surroundings after one instruction.
#[derive(Clone, Copy, Debug, PartialEq, Eq, Structural)]
pub enum Event {
    /// The instruction completed; run the next one.
    Continue,
    /// The machine halted cleanly.
    Halt,
    /// Emit this byte (and flush) before the next instruction.
    Output(u8),
    /// Read one byte and hand it to [`opcode11`] for this register.
    Input(usize),
}

/// The state of a running machine.
pub struct VM {
    registers: Vec<u32>,
    memory: Vec<Vec<u32>>,
    mapped: Vec<bool>,
    unmap_index_values: Vec<usize>,
    program_counter: usize,
}

impl VM {
    /// The register file.
    pub closed spec fn regs(self) -> Seq<u32> {
        self.registers@
    }

    /// Number of slots in the segment table, mapped or not.
    pub closed spec fn seg_count(self) -> int {
        self.memory@.len() as int
    }

    /// The words stored at identifier `id`.
    pub closed spec fn seg(self, id: int) -> Seq<u32> {
        self.memory@[id]@
    }

    /// Whether `id` names a live segment.
    pub closed spec fn is_mapped(self, id: int) -> bool {
        0 <= id < self.memory@.len() && self.mapped@[id]
    }

    /// The identifiers waiting for reuse; the last one is reused first.
    pub closed spec fn free_ids(self) -> Seq<usize> {
        self.unmap_index_values@
    }

    /// The program counter.
    pub closed spec fn pc(self) -> int {
        self.program_counter as int
    }

    /// The machine's invariant.
    pub closed spec fn wf(self) -> bool {
        &&& self.registers@.len() == NUM_REGISTERS
        &&& self.mapped@.len() == self.memory@.len()
        &&& 1 <= self.memory@.len() <= MAX_SEGMENTS
        &&& self.mapped@[0]
        &&& forall|k: int|
            0 <= k < self.unmap_index_values@.len() ==> {
                let id = #[trigger] self.unmap_index_values@[k];
                &&& 0 < id < self.memory@.len()
                &&& !self.mapped@[id as int]
            }
        &&& forall|j: int, k: int|
            0 <= j < k < self.unmap_index_values@.len() ==> self.unmap_index_values@[j]
                != self.unmap_index_values@[k]
    }

    /// A map can be served: an identifier waits for reuse, or the table can grow.
    pub open spec fn can_map(self) -> bool {
        self.free_ids().len() > 0 || self.seg_count() < MAX_SEGMENTS
    }

    /// Only the registers may differ between `self` and `other`.
    pub open spec fn same_memory(self, other: VM) -> bool {
        &&& self.seg_count() == other.seg_count()
        &&& forall|j: int| 0 <= j < self.seg_count() ==> #[trigger] self.seg(j) == other.seg(j)
        &&& forall|j: int| #[trigger] self.is_mapped(j) == other.is_mapped(j)
        &&& self.free_ids() == other.free_ids()
        &&& self.pc() == other.pc()
    }

    /// `self` and `other` agree on every segment but `id`, and on the mapped
    /// status of every identifier but `id`.
    pub open spec fn same_segments_except(self, other: VM, id: int) -> bool {
        &&& self.seg_count() <= other.seg_count()
        &&& forall|j: int|
            0 <= j < self.seg_count() && j != id ==> #[trigger] self.seg(j) == other.seg(j)
        &&& forall|j: int| j != id ==> #[trigger] self.is_mapped(j) == other.is_mapped(j)
    }

    /// A machine whose segment zero holds `program`, with all registers zero
    /// and the program counter at zero.
    pub fn new(program: Vec<u32>) -> (r: VM)
        ensures
            r.wf(),
            r.regs() == Seq::new(8, |i: int| 0u32),
            r.seg_count() == 1,
            r.seg(0) == program@,
            r.is_mapped(0),
            r.free_ids().len() == 0,
            r.pc() == 0,
    {
        let registers: Vec<u32> = vec![0u32, 0, 0, 0, 0, 0, 0, 0];
        let mut memory: Vec<Vec<u32>> = Vec::new();
        memory.push(program);
        let mut mapped: Vec<bool> = Vec::new();
        mapped.push(true);
        let r = VM {
            registers,
            memory,
            mapped,
            unmap_index_values: Vec::new(),
            program_counter: 0,
        };
        assert(r.regs() =~= Seq::new(8, |i: int| 0u32));
        r
    }

    /// What the invariant gives about the register file and segment zero.
    pub proof fn lemma_wf_facts(self)
        requires
            self.wf(),
        ensures
            self.regs().len() == NUM_REGISTERS,
            1 <= self.seg_count() <= MAX_SEGMENTS,
            self.is_mapped(0),
            forall|id: int| #[trigger] self.is_mapped(id) ==> 0 <= id < self.seg_count(),
            forall|k: int|
                0 <= k < self.free_ids().len() ==> {
                    let id = #[trigger] self.free_ids()[k] as int;
                    &&& 0 < id < self.seg_count()
                    &&& !self.is_mapped(id)
                },
            forall|j: int, k: int|
                0 <= j < k < self.free_ids().len() ==> self.free_ids()[j] != self.free_ids()[k],
    {
    }

    /// Moving the program counter past the word it points at changes
    /// nothing else, and keeps the invariant.
    pub proof fn lemma_advanced(self)
        requires
            self.wf(),
            self.pc() < self.seg(0).len(),
        ensures
            self.advanced().wf(),
            self.advanced().pc() == self.pc() + 1,
            self.advanced().regs() == self.regs(),
            self.advanced().seg_count() == self.seg_count(),
            forall|j: int| #[trigger] self.advanced().seg(j) == self.seg(j),
            forall|j: int| #[trigger] self.advanced().is_mapped(j) == self.is_mapped(j),
            self.advanced().free_ids() == self.free_ids(),
    {
        assert(self.memory@[0]@.len() == self.memory@[0].len());
    }

    /// `self` with the program counter moved to the next word.
    pub closed spec fn advanced(self) -> VM {
        VM { program_counter: (self.program_counter + 1) as usize, ..self }
    }

    /// The word at the program counter, when it lies within segment zero.
    pub open spec fn fetch(self) -> Option<u32> {
        if 0 <= self.pc() < self.seg(0).len() {
            Some(self.seg(0)[self.pc()])
        } else {
            None
        }
    }

    /// Executes one instruction. On a fault or a halt the state is left as it
    /// was; otherwise the program counter moves past the word and the body of
    /// its opcode runs. An `Input` event asks for [`opcode11`] to be called.
    pub fn step(&mut self) -> (r: Result<Event, Fault>)
        requires
            old(self).wf(),
        ensures
            final(self).wf(),
            final(self).regs().len() == NUM_REGISTERS,
            final(self).is_mapped(0),
            old(self).fetch() is None ==> r == Err::<Event, Fault>(Fault::ProgramCounter)
                && *final(self) == *old(self),
            old(self).fetch() matches Some(w) ==> {
                &&& r == outcome(*old(self), w)
                &&& (r is Err || r == Ok::<Event, Fault>(Event::Halt)) ==> *final(self) == *old(self)
                &&& (r is Ok && r != Ok::<Event, Fault>(Event::Halt)) ==> executes(old(self).advanced(), *final(self), w)
            },
    {
        if self.program_counter >= self.memory[0].len() {
            return Err(Fault::ProgramCounter);
        }
        let w = self.memory[0][self.program_counter];
        let opcode = rumdis::op(w);
        let a = rumdis::get(&rumdis::ra(), w) as usize;
        let b = rumdis::get(&rumdis::rb(), w) as usize;
        let c = rumdis::get(&rumdis::rc(), w) as usize;
        proof {
            vstd::arithmetic::power2::lemma2_to64();
        }
        let ra = self.registers[a];
        let rb = self.registers[b];
        let rc = self.registers[c];
        if opcode > 13 {
            return Err(Fault::InvalidOpcode);
        }
        if opcode == 1 && !(self.segment_is_mapped(rb) && (rc as usize) < self.memory[rb as usize].len()) {
            return Err(Fault::IllegalAccess);
        }
        if opcode == 2 && !(self.segment_is_mapped(ra) && (rb as usize) < self.memory[ra as usize].len()) {
            return Err(Fault::IllegalAccess);
        }
        if opcode == 5 && rc == 0 {
            return Err(Fault::DivisionByZero);
        }
        if opcode == 8 && self.unmap_index_values.len() == 0 && self.memory.len() as u64 >= MAX_SEGMENTS {
            return Err(Fault::SegmentLimit);
        }
        if opcode == 9 && (rc == 0 || !self.segment_is_mapped(rc)) {
            return Err(Fault::IllegalUnmap);
        }
        if opcode == 10 {
            match opcode10(self, c) {
                Err(f) => {
                    return Err(f);
                },
                Ok(byte) => {
                    self.program_counter = self.program_counter + 1;
                    return Ok(Event::Output(byte));
                },
            }
        }
        if opcode == 12 && rb != 0 && !self.segment_is_mapped(rb) {
            return Err(Fault::IllegalAccess);
        }
        if opcode == 7 {
            return Ok(Event::Halt);
        }
        self.program_counter = self.program_counter + 1;
        if opcode == 0 {
            opcode0(self, a, b, c);
        } else if opcode == 1 {
            opcode1(self, a, b, c);
        } else if opcode == 2 {
            opcode2(self, a, b, c);
        } else if opcode == 3 {
            opcode3(self, a, b, c);
        } else if opcode == 4 {
            opcode4(self, a, b, c);
        } else if opcode == 5 {
            opcode5(self, a, b, c);
        } else if opcode == 6 {
            opcode6(self, a, b, c);
        } else if opcode == 8 {
            opcode8(self, b, c);
        } else if opcode == 9 {
            opcode9(self, c);
        } else if opcode == 11 {
            return Ok(Event::Input(c));
        } else if opcode == 12 {
            opcode12(self, b, c);
        } else {
            let rl = rumdis::get(&rumdis::rl(), w) as usize;
            let vl = rumdis::get(&rumdis::vl(), w);
            opcode13(self, rl, vl);
        }
        Ok(Event::Continue)
    }

    /// The value of register `i`.
    pub fn register(&self, i: usize) -> (r: u32)
        requires
            self.wf(),
            i < NUM_REGISTERS,
        ensures
            r == self.regs()[i as int],
    {
        self.registers[i]
    }

    /// The program counter.
    pub fn program_counter(&self) -> (r: usize)
        ensures
            r as int == self.pc(),
    {
        self.program_counter
    }

    /// Whether `id` names a live segment.
    pub fn segment_is_mapped(&self, id: u32) -> (r: bool)
        requires
            self.wf(),
        ensures
            r == self.is_mapped(id as int),
    {
        (id as usize) < self.memory.len() && self.mapped[id as usize]
    }

    /// The length of the live segment `id`.
    pub fn segment_len(&self, id: u32) -> (r: usize)
        requires
            self.wf(),
            self.is_mapped(id as int),
        ensures
            r as int == self.seg(id as int).len(),
    {
        self.memory[id as usize].len()
    }

    /// Word `i` of the live segment `id`.
    pub fn segment_word(&self, id: u32, i: usize) -> (r: u32)
        requires
            self.wf(),
            self.is_mapped(id as int),
            i < self.seg(id as int).len(),
        ensures
            r == self.seg(id as int)[i as int],
    {
        self.memory[id as usize][i]
    }
}

/// Bitwise NOT of the bitwise AND.
pub open spec fn nand(x: u32, y: u32) -> u32 {
    !(x & y)
}

/// Conditional move: `R[a] <- R[b]` when `R[c] != 0`.
pub open spec fn cmov_post(s: VM, t: VM, a: int, b: int, c: int) -> bool {
    &&& t.wf()
    &&& t.same_memory(s)
    &&& t.regs() == if s.regs()[c] != 0 {
        s.regs().update(a, s.regs()[b])
    } else {
        s.regs()
    }
}

/// `R[a] <- (R[b] + R[c]) mod 2^32`.
pub open spec fn add_post(s: VM, t: VM, a: int, b: int, c: int) -> bool {
    &&& t.wf()
    &&& t.same_memory(s)
    &&& t.regs() == s.regs().update(a, ((s.regs()[b] + s.regs()[c]) % 0x1_0000_0000) as u32)
}

/// `R[a] <- (R[b] * R[c]) mod 2^32`.
pub open spec fn mul_post(s: VM, t: VM, a: int, b: int, c: int) -> bool {
    &&& t.wf()
    &&& t.same_memory(s)
    &&& t.regs() == s.regs().update(a, ((s.regs()[b] * s.regs()[c]) % 0x1_0000_0000) as u32)
}

/// `R[a] <- R[b] / R[c]`, truncating.
pub open spec fn div_post(s: VM, t: VM, a: int, b: int, c: int) -> bool {
    &&& t.wf()
    &&& t.same_memory(s)
    &&& t.regs() == s.regs().update(a, (s.regs()[b] / s.regs()[c]) as u32)
}

/// `R[a] <- NAND(R[b], R[c])`.
pub open spec fn nand_post(s: VM, t: VM, a: int, b: int, c: int) -> bool {
    &&& t.wf()
    &&& t.same_memory(s)
    &&& t.regs() == s.regs().update(a, nand(s.regs()[b], s.regs()[c]))
}

/// `R[rl] <- v`.
pub open spec fn load_immediate_post(s: VM, t: VM, rl: int, v: u32) -> bool {
    &&& t.wf()
    &&& t.same_memory(s)
    &&& t.regs() == s.regs().update(rl, v)
}

/// `R[a] <- segment R[b] at index R[c]`.
pub open spec fn load_post(s: VM, t: VM, a: int, b: int, c: int) -> bool {
    &&& t.wf()
    &&& t.same_memory(s)
    &&& t.regs() == s.regs().update(a, s.seg(s.regs()[b] as int)[s.regs()[c] as int])
}

/// Segment R[a] at index R[b] `<- R[c]`; nothing else changes.
pub open spec fn store_post(s: VM, t: VM, a: int, b: int, c: int) -> bool {
    let id = s.regs()[a] as int;
    &&& t.wf()
    &&& t.regs() == s.regs()
    &&& t.seg_count() == s.seg_count()
    &&& s.same_segments_except(t, id)
    &&& t.is_mapped(id) == s.is_mapped(id)
    &&& t.seg(id) == s.seg(id).update(s.regs()[b] as int, s.regs()[c])
    &&& t.free_ids() == s.free_ids()
    &&& t.pc() == s.pc()
}

/// A fresh segment of `R[c]` zero words is mapped under an identifier that
/// was free, which lands in `R[b]`: the last identifier of the free list if
/// there is one, else a new slot at the end of the table.
pub open spec fn map_post(s: VM, t: VM, b: int, c: int) -> bool {
    let id = t.regs()[b] as int;
    let reuse = s.free_ids().len() > 0;
    &&& t.wf()
    &&& id == if reuse {
        s.free_ids().last() as int
    } else {
        s.seg_count()
    }
    &&& t.free_ids() == if reuse {
        s.free_ids().drop_last()
    } else {
        s.free_ids()
    }
    &&& t.seg_count() == if reuse {
        s.seg_count()
    } else {
        s.seg_count() + 1
    }
    &&& id != 0
    &&& !s.is_mapped(id)
    &&& t.is_mapped(id)
    &&& t.seg(id) == Seq::new(s.regs()[c] as nat, |i: int| 0u32)
    &&& s.same_segments_except(t, id)
    &&& t.regs() == s.regs().update(b, id as u32)
    &&& t.pc() == s.pc()
}

/// Segment `R[c]` is unmapped and its identifier pushed on the free list.
pub open spec fn unmap_post(s: VM, t: VM, c: int) -> bool {
    let id = s.regs()[c] as int;
    &&& t.wf()
    &&& t.regs() == s.regs()
    &&& t.seg_count() == s.seg_count()
    &&& s.same_segments_except(t, id)
    &&& !t.is_mapped(id)
    &&& t.free_ids() == s.free_ids().push(id as usize)
    &&& t.pc() == s.pc()
}

/// Segment zero becomes a copy of segment `R[b]` when `R[b] != 0`, and the
/// program counter becomes `R[c]`.
pub open spec fn load_program_post(s: VM, t: VM, b: int, c: int) -> bool {
    let id = s.regs()[b] as int;
    &&& t.wf()
    &&& t.regs() == s.regs()
    &&& t.seg_count() == s.seg_count()
    &&& s.same_segments_except(t, 0)
    &&& t.seg(0) == if id != 0 {
        s.seg(id)
    } else {
        s.seg(0)
    }
    &&& t.free_ids() == s.free_ids()
    &&& t.pc() == s.regs()[c] as int
}

/// The byte that opcode 11 stores: the byte read, or all ones at end of input.
pub open spec fn input_value(input: Option<u8>) -> u32 {
    match input {
        Some(v) => v as u32,
        None => 0xFFFF_FFFFu32,
    }
}

/// `R[c] <- ` the byte read, or all ones at end of input.
pub open spec fn input_post(s: VM, t: VM, c: int, input: Option<u8>) -> bool {
    &&& t.wf()
    &&& t.same_memory(s)
    &&& t.regs() == s.regs().update(c, input_value(input))
}

/// What opcode 10 emits for register `c`.
pub open spec fn output_result(s: VM, c: int) -> Result<u8, Fault> {
    if s.regs()[c] <= 255 {
        Ok(s.regs()[c] as u8)
    } else {
        Err(Fault::OutputRange)
    }
}

/// Segmented Load; segment `R[b]` must be mapped and `R[c]` within it.
pub fn opcode1(um: &mut VM, a: usize, b: usize, c: usize)
    requires
        old(um).wf(),
        a < NUM_REGISTERS && b < NUM_REGISTERS && c < NUM_REGISTERS,
        old(um).is_mapped(old(um).regs()[b as int] as int),
        old(um).regs()[c as int] < old(um).seg(old(um).regs()[b as int] as int).len(),
    ensures
        load_post(*old(um), *final(um), a as int, b as int, c as int),
{
    let v = um.memory[um.registers[b] as usize][um.registers[c] as usize];
    um.registers[a] = v;
}

/// Segmented Store; segment `R[a]` must be mapped and `R[b]` within it.
pub fn opcode2(um: &mut VM, a: usize, b: usize, c: usize)
    requires
        old(um).wf(),
        a < NUM_REGISTERS && b < NUM_REGISTERS && c < NUM_REGISTERS,
        old(um).is_mapped(old(um).regs()[a as int] as int),
        old(um).regs()[b as int] < old(um).seg(old(um).regs()[a as int] as int).len(),
    ensures
        store_post(*old(um), *final(um), a as int, b as int, c as int),
{
    let id = um.registers[a] as usize;
    let i = um.registers[b] as usize;
    let v = um.registers[c];
    um.memory[id][i] = v;
}

/// A vector of `n` zero words.
fn zeroed(n: usize) -> (r: Vec<u32>)
    ensures
        r@ == Seq::new(n as nat, |i: int| 0u32),
{
    let mut r: Vec<u32> = Vec::with_capacity(n);
    let mut k: usize = 0;
    while k < n
        invariant
            k <= n,
            r@ == Seq::new(k as nat, |i: int| 0u32),
        decreases n - k,
    {
        r.push(0);
        k = k + 1;
        assert(r@ =~= Seq::new(k as nat, |i: int| 0u32));
    }
    r
}

/// A copy of `v`, independent of it.
fn duplicate(v: &Vec<u32>) -> (r: Vec<u32>)
    ensures
        r@ == v@,
{
    let mut r: Vec<u32> = Vec::with_capacity(v.len());
    let mut k: usize = 0;
    while k < v.len()
        invariant
            k <= v@.len(),
            r@ == v@.subrange(0, k as int),
        decreases v@.len() - k,
    {
        r.push(v[k]);
        k = k + 1;
        assert(r@ =~= v@.subrange(0, k as int));
    }
    assert(r@ =~= v@);
    r
}

/// Map Segment: a zero-filled segment of `R[c]` words, its identifier in `R[b]`.
pub fn opcode8(um: &mut VM, b: usize, c: usize)
    requires
        old(um).wf(),
        b < NUM_REGISTERS && c < NUM_REGISTERS,
        old(um).can_map(),
    ensures
        map_post(*old(um), *final(um), b as int, c as int),
{
    let length = um.registers[c] as usize;
    let new_segment = zeroed(length);
    let ghost s = *um;
    if um.unmap_index_values.len() != 0 {
        let id = um.unmap_index_values.pop().unwrap();
        um.memory[id] = new_segment;
        um.mapped[id] = true;
        um.registers[b] = id as u32;
        proof {
            assert forall|k: int| 0 <= k < um.unmap_index_values@.len() implies um.unmap_index_values@[k] != id by {
                assert(s.unmap_index_values@[k] == um.unmap_index_values@[k]);
            }
        }
    } else {
        let id = um.memory.len();
        um.memory.push(new_segment);
        um.mapped.push(true);
        um.registers[b] = id as u32;
    }
}

/// Unmap Segment: `R[c]` must name a live segment other than zero.
pub fn opcode9(um: &mut VM, c: usize)
    requires
        old(um).wf(),
        c < NUM_REGISTERS,
        old(um).regs()[c as int] != 0,
        old(um).is_mapped(old(um).regs()[c as int] as int),
    ensures
        unmap_post(*old(um), *final(um), c as int),
{
    let id = um.registers[c] as usize;
    um.mapped[id] = false;
    um.unmap_index_values.push(id);
}

/// Output: the byte to emit for register `c`, or a fault above 255.
pub fn opcode10(um: &VM, c: usize) -> (r: Result<u8, Fault>)
    requires
        um.wf(),
        c < NUM_REGISTERS,
    ensures
        r == output_result(*um, c as int),
{
    let v = um.registers[c];
    if v <= 255 {
        Ok(v as u8)
    } else {
        Err(Fault::OutputRange)
    }
}

/// Input: stores the byte read into `R[c]`, or all ones at end of input.
pub fn opcode11(um: &mut VM, c: usize, input: Option<u8>)
    requires
        old(um).wf(),
        c < NUM_REGISTERS,
    ensures
        input_post(*old(um), *final(um), c as int, input),
{
    let v = match input {
        Some(byte) => byte as u32,
        None => 0xFFFF_FFFFu32,
    };
    um.registers[c] = v;
}

/// Load Program: segment zero becomes a copy of segment `R[b]` unless
/// `R[b] == 0`, and the program counter becomes `R[c]`.
pub fn opcode12(um: &mut VM, b: usize, c: usize)
    requires
        old(um).wf(),
        b < NUM_REGISTERS && c < NUM_REGISTERS,
        old(um).regs()[b as int] == 0 || old(um).is_mapped(old(um).regs()[b as int] as int),
    ensures
        load_program_post(*old(um), *final(um), b as int, c as int),
{
    um.program_counter = um.registers[c] as usize;
    let id = um.registers[b] as usize;
    if id != 0 {
        let copy = duplicate(&um.memory[id]);
        um.memory[0] = copy;
    }
}

/// Register selector A of a standard instruction.
pub open spec fn sel_a(w: u32) -> int {
    field_value(w, 3, 6) as int
}

/// Register selector B of a standard instruction.
pub open spec fn sel_b(w: u32) -> int {
    field_value(w, 3, 3) as int
}

/// Register selector C of a standard instruction.
pub open spec fn sel_c(w: u32) -> int {
    field_value(w, 3, 0) as int
}

/// The load register of a load-immediate instruction.
pub open spec fn sel_load(w: u32) -> int {
    field_value(w, 3, 25) as int
}

/// The immediate value of a load-immediate instruction.
pub open spec fn immediate(w: u32) -> u32 {
    field_value(w, 25, 0) as u32
}

/// The fault, if any, that executing `w` in state `s` raises.
pub open spec fn fault_of(s: VM, w: u32) -> Option<Fault> {
    let op = opcode_of(w);
    let ra = s.regs()[sel_a(w)];
    let rb = s.regs()[sel_b(w)];
    let rc = s.regs()[sel_c(w)];
    if op > 13 {
        Some(Fault::InvalidOpcode)
    } else if op == 1 && !(s.is_mapped(rb as int) && rc < s.seg(rb as int).len()) {
        Some(Fault::IllegalAccess)
    } else if op == 2 && !(s.is_mapped(ra as int) && rb < s.seg(ra as int).len()) {
        Some(Fault::IllegalAccess)
    } else if op == 5 && rc == 0 {
        Some(Fault::DivisionByZero)
    } else if op == 8 && !s.can_map() {
        Some(Fault::SegmentLimit)
    } else if op == 9 && (rc == 0 || !s.is_mapped(rc as int)) {
        Some(Fault::IllegalUnmap)
    } else if op == 10 && rc > 255 {
        Some(Fault::OutputRange)
    } else if op == 12 && rb != 0 && !s.is_mapped(rb as int) {
        Some(Fault::IllegalAccess)
    } else {
        None
    }
}

/// What one step on the word `w` in state `s` returns.
pub open spec fn outcome(s: VM, w: u32) -> Result<Event, Fault> {
    let op = opcode_of(w);
    match fault_of(s, w) {
        Some(f) => Err(f),
        None => if op == 7 {
            Ok(Event::Halt)
        } else if op == 10 {
            Ok(Event::Output(s.regs()[sel_c(w)] as u8))
        } else if op == 11 {
            Ok(Event::Input(sel_c(w) as usize))
        } else {
            Ok(Event::Continue)
        },
    }
}

/// The state change of executing `w`, without faults, from `m`: the state
/// whose program counter has already moved past `w`.
pub open spec fn executes(m: VM, t: VM, w: u32) -> bool {
    let op = opcode_of(w);
    let (a, b, c) = (sel_a(w), sel_b(w), sel_c(w));
    if op == 0 {
        cmov_post(m, t, a, b, c)
    } else if op == 1 {
        load_post(m, t, a, b, c)
    } else if op == 2 {
        store_post(m, t, a, b, c)
    } else if op == 3 {
        add_post(m, t, a, b, c)
    } else if op == 4 {
        mul_post(m, t, a, b, c)
    } else if op == 5 {
        div_post(m, t, a, b, c)
    } else if op == 6 {
        nand_post(m, t, a, b, c)
    } else if op == 8 {
        map_post(m, t, b, c)
    } else if op == 9 {
        unmap_post(m, t, c)
    } else if op == 12 {
        load_program_post(m, t, b, c)
    } else if op == 13 {
        load_immediate_post(m, t, sel_load(w), immediate(w))
    } else {
        // output and input: the byte moves outside the machine
        t.wf() && t.same_memory(m) && t.regs() == m.regs()
    }
}

/// Conditional Move.
pub fn opcode0(um: &mut VM, a: usize, b: usize, c: usize)
    requires
        old(um).wf(),
        a < NUM_REGISTERS && b < NUM_REGISTERS && c < NUM_REGISTERS,
    ensures
        cmov_post(*old(um), *final(um), a as int, b as int, c as int),
{
    if um.registers[c] != 0 {
        let v = um.registers[b];
        um.registers[a] = v;
    }
}

/// Addition modulo 2^32.
pub fn opcode3(um: &mut VM, a: usize, b: usize, c: usize)
    requires
        old(um).wf(),
        a < NUM_REGISTERS && b < NUM_REGISTERS && c < NUM_REGISTERS,
    ensures
        add_post(*old(um), *final(um), a as int, b as int, c as int),
{
    let v = um.registers[b].wrapping_add(um.registers[c]);
    um.registers[a] = v;
}

/// Multiplication modulo 2^32.
pub fn opcode4(um: &mut VM, a: usize, b: usize, c: usize)
    requires
        old(um).wf(),
        a < NUM_REGISTERS && b < NUM_REGISTERS && c < NUM_REGISTERS,
    ensures
        mul_post(*old(um), *final(um), a as int, b as int, c as int),
{
    let v = um.registers[b].wrapping_mul(um.registers[c]);
    um.registers[a] = v;
}

/// Truncating unsigned division; the divisor must not be zero.
pub fn opcode5(um: &mut VM, a: usize, b: usize, c: usize)
    requires
        old(um).wf(),
        a < NUM_REGISTERS && b < NUM_REGISTERS && c < NUM_REGISTERS,
        old(um).regs()[c as int] != 0,
    ensures
        div_post(*old(um), *final(um), a as int, b as int, c as int),
{
    let v = um.registers[b] / um.registers[c];
    um.registers[a] = v;
}

/// Bitwise NAND.
pub fn opcode6(um: &mut VM, a: usize, b: usize, c: usize)
    requires
        old(um).wf(),
        a < NUM_REGISTERS && b < NUM_REGISTERS && c < NUM_REGISTERS,
    ensures
        nand_post(*old(um), *final(um), a as int, b as int, c as int),
{
    let v = !(um.registers[b] & um.registers[c]);
    um.registers[a] = v;
}

/// Load Immediate: `R[rl] <- vl`.
pub fn opcode13(um: &mut VM, rl: usize, vl: u32)
    requires
        old(um).wf(),
        rl < NUM_REGISTERS,
    ensures
        load_immediate_post(*old(um), *final(um), rl as int, vl),
{
    um.registers[rl] = vl;
}

} // verus!
