//! The R3000A interpreter: fetch, branch and load delay slots, exceptions and
//! the integer, cop0 and cop2 instructions.
use vstd::prelude::*;

use crate::bus::{is_mapped, physical, BusError, Interface};
use crate::bytes::{le16, le32};
use crate::decoder::{cause_code, Cause};
use crate::gte::GTE;
use crate::registers::Registers;

verus! {

/// Sign-extended 16-bit immediate.
pub open spec fn se(instr: u32) -> u32 {
    (instr as i16) as u32
}

pub open spec fn wadd(a: u32, b: u32) -> u32 {
    vstd::wrapping::u32_specs::wrapping_add(a, b)
}

pub open spec fn wsub(a: u32, b: u32) -> u32 {
    vstd::wrapping::u32_specs::wrapping_sub(a, b)
}

/// The result of a register-register ALU instruction (SPECIAL function `funct`)
/// on `a` = R[rs] and `b` = R[rt], for the ones that cannot trap.
pub open spec fn alu_r(funct: u32, a: u32, b: u32, shamt: u32) -> u32 {
    if funct == 0x00 {
        b << shamt
    } else if funct == 0x02 {
        b >> shamt
    } else if funct == 0x03 {
        ((b as i32) >> shamt) as u32
    } else if funct == 0x04 {
        b << (a & 31)
    } else if funct == 0x06 {
        b >> (a & 31)
    } else if funct == 0x07 {
        ((b as i32) >> (a & 31)) as u32
    } else if funct == 0x21 {
        wadd(a, b)
    } else if funct == 0x23 {
        wsub(a, b)
    } else if funct == 0x24 {
        a & b
    } else if funct == 0x25 {
        a | b
    } else if funct == 0x26 {
        a ^ b
    } else if funct == 0x27 {
        !(a | b)
    } else if funct == 0x2A {
        if (a as i32) < (b as i32) { 1 } else { 0 }
    } else {
        if a < b { 1 } else { 0 }
    }
}

pub open spec fn is_alu_r(funct: u32) -> bool {
    funct == 0x00 || funct == 0x02 || funct == 0x03 || funct == 0x04 || funct == 0x06 || funct
        == 0x07 || funct == 0x21 || funct == 0x23 || funct == 0x24 || funct == 0x25 || funct == 0x26
        || funct == 0x27 || funct == 0x2A || funct == 0x2B
}

/// The result of an immediate ALU instruction (opcode `op`) on `a` = R[rs].
pub open spec fn alu_i(op: u32, a: u32, instr: u32) -> u32 {
    let imm = instr & 0xFFFF;
    if op == 0x09 {
        wadd(a, se(instr))
    } else if op == 0x0A {
        if (a as i32) < (se(instr) as i32) { 1 } else { 0 }
    } else if op == 0x0B {
        if a < se(instr) { 1 } else { 0 }
    } else if op == 0x0C {
        a & imm
    } else if op == 0x0D {
        a | imm
    } else if op == 0x0E {
        a ^ imm
    } else {
        imm << 16u32
    }
}

pub open spec fn is_alu_i(op: u32) -> bool {
    0x09 <= op <= 0x0F
}

/// Signed addition that does not overflow 32 bits.
pub open spec fn add_fits(a: u32, b: u32) -> bool {
    i32::MIN <= (a as i32) + (b as i32) <= i32::MAX
}

pub open spec fn sub_fits(a: u32, b: u32) -> bool {
    i32::MIN <= (a as i32) - (b as i32) <= i32::MAX
}

pub open spec fn magnitude(x: int) -> int {
    if x < 0 { -x } else { x }
}

/// HI and LO after DIV (quotient rounded toward zero, remainder with the
/// dividend's sign): by zero HI takes the dividend and LO 1 or -1; the one
/// overflowing case gives LO = INT_MIN, HI = 0.
pub open spec fn div_result(a: u32, b: u32) -> (u32, u32) {
    let n = (a as i32) as int;
    let d = (b as i32) as int;
    if d == 0 {
        (a, if n < 0 { 1 } else { 0xFFFF_FFFF })
    } else if n == i32::MIN && d == -1 {
        (0, 0x8000_0000)
    } else {
        let q = magnitude(n) / magnitude(d);
        let r = magnitude(n) % magnitude(d);
        let sq = if (n < 0) != (d < 0) { -q } else { q };
        let sr = if n < 0 { -r } else { r };
        (sr as i32 as u32, sq as i32 as u32)
    }
}

/// HI and LO after DIVU: by zero HI takes the dividend and LO all ones.
pub open spec fn divu_result(a: u32, b: u32) -> (u32, u32) {
    if b == 0 {
        (a, 0xFFFF_FFFF)
    } else {
        (a % b, a / b)
    }
}

/// The register file after the pending write in slot 0 lands.
pub open spec fn committed(r: Seq<u32>, p: Option<(u32, u32)>) -> Seq<u32> {
    match p {
        Some((reg, v)) => r.update(reg as int, v).update(0, 0),
        None => r,
    }
}

pub struct CPU {
    pub R: Registers<32>,
    pub pc: u32,
    pub hi: u32,
    pub lo: u32,
    pub current_pc: u32,
    pub next_pc: u32,
    /// Slot 0: the write that lands after this instruction; slot 1: a load
    /// scheduled by this instruction, which lands after the next one.
    pub pending_writes: [Option<(u32, u32)>; 2],
    pub branch: bool,
    pub delay_slot: bool,
    pub bus: Interface,
    pub gte: GTE,
    pub stalled: bool,
}

impl CPU {
    pub open spec fn regs(&self) -> Seq<u32> {
        self.R.R@
    }

    /// R0 reads as zero, pending writes name registers, and outside a branch
    /// the next PC follows the PC.
    pub open spec fn wf(&self) -> bool {
        &&& self.regs()[0] == 0
        &&& forall|i: int| 0 <= i < 2 ==> (#[trigger] self.pending_writes@[i] matches Some(p) ==> p.0 < 32)
        &&& !self.branch ==> self.next_pc == wadd(self.pc, 4)
        &&& self.bus.wf()
        &&& self.gte.wf()
    }

    pub fn new(bus: Interface) -> (c: CPU)
        requires
            bus.wf(),
        ensures
            c.wf(),
            c.pc == 0xBFC0_0000,
            c.next_pc == 0xBFC0_0004,
            forall|i: int| 0 <= i < 32 ==> c.regs()[i] == 0,
    {
        CPU {
            R: Registers::zeroed(),
            pc: 0xBFC0_0000,
            hi: 0,
            lo: 0,
            current_pc: 0xBFC0_0000,
            next_pc: 0xBFC0_0004,
            pending_writes: [None, None],
            branch: false,
            delay_slot: false,
            bus,
            gte: GTE::new(),
            stalled: false,
        }
    }

    fn reg(&self, r: u32) -> (v: u32)
        requires
            r < 32,
        ensures
            v == self.regs()[r as int],
    {
        self.R.get(r)
    }

    /// An ALU result: the write pending from the previous instruction lands
    /// first, then this one waits in slot 0.
    fn write_register(&mut self, register: u32, value: u32)
        requires
            old(self).wf(),
            register < 32,
        ensures
            final(self).hi == old(self).hi && final(self).lo == old(self).lo,
            final(self).current_pc == old(self).current_pc && final(self).delay_slot == old(self).delay_slot,
            final(self).wf(),
            final(self).regs() == committed(old(self).regs(), old(self).pending_writes@[0]),
            final(self).pending_writes@ == old(self).pending_writes@.update(0, Some((register, value))),
            final(self).pc == old(self).pc && final(self).next_pc == old(self).next_pc,
            final(self).branch == old(self).branch,
            final(self).bus == old(self).bus,
    {
        match self.pending_writes[0] {
            Some((r, v)) => {
                self.R.set(r, v);
                self.R.set(0, 0);
            },
            None => {},
        }
        self.pending_writes[0] = Some((register, value));
    }

    /// A load result: it lands after the next instruction.
    fn schedule_write(&mut self, register: u32, value: u32)
        requires
            old(self).wf(),
            register < 32,
        ensures
            final(self).hi == old(self).hi && final(self).lo == old(self).lo,
            final(self).current_pc == old(self).current_pc && final(self).delay_slot == old(self).delay_slot,
            final(self).wf(),
            final(self).regs() == old(self).regs(),
            final(self).pending_writes@ == old(self).pending_writes@.update(1, Some((register, value))),
            final(self).pc == old(self).pc && final(self).next_pc == old(self).next_pc,
            final(self).branch == old(self).branch,
            final(self).bus == old(self).bus,
    {
        self.pending_writes[1] = Some((register, value));
    }

    fn commit_writes(&mut self)
        requires
            old(self).wf(),
        ensures
            final(self).hi == old(self).hi && final(self).lo == old(self).lo,
            final(self).current_pc == old(self).current_pc && final(self).delay_slot == old(self).delay_slot,
            final(self).wf(),
            final(self).regs() == committed(old(self).regs(), old(self).pending_writes@[0]),
            final(self).pending_writes@ == seq![old(self).pending_writes@[1], None],
            final(self).pc == old(self).pc && final(self).next_pc == old(self).next_pc,
            final(self).branch == old(self).branch,
            final(self).bus == old(self).bus,
    {
        match self.pending_writes[0] {
            Some((r, v)) => {
                self.R.set(r, v);
                self.R.set(0, 0);
            },
            None => {},
        }
        self.pending_writes[0] = self.pending_writes[1];
        self.pending_writes[1] = None;
        assert(self.pending_writes@ =~= seq![old(self).pending_writes@[1], None]);
    }

    /// Enters the exception handler: cop0 saves the state, the PC moves to the
    /// vector, and the load scheduled by this instruction is dropped.
    fn raise_exception(&mut self, cause: Cause)
        requires
            old(self).wf(),
        ensures
            exception_view(old(self)@, final(self)@, cause_code(cause)),
            final(self).current_pc == old(self).current_pc && final(self).delay_slot == old(self).delay_slot,
            final(self).wf(),
            final(self).pc == (if old(self).bus.cop0.regs()[12] & 0x40_0000 != 0 { 0xBFC0_0180u32 } else { 0x8000_0080u32 }),
            final(self).next_pc == wadd(final(self).pc, 4),
            !final(self).branch,
            final(self).regs() == old(self).regs(),
            final(self).pending_writes@ == old(self).pending_writes@.update(1, None),
            final(self).bus.cop0.regs() == crate::system_control::raised(
                old(self).bus.cop0.regs(),
                cause_code(cause),
                old(self).current_pc,
                old(self).pc,
                old(self).delay_slot,
            ),
    {
        let boot = self.bus.cop0.raise_exception(cause.code(), self.current_pc, self.pc, self.delay_slot);
        self.pc = if boot {
            0xBFC0_0180
        } else {
            0x8000_0080
        };
        self.next_pc = self.pc.wrapping_add(4);
        self.branch = false;
        self.pending_writes[1] = None;
    }
}

/// The target of a relative branch, from the next PC at execution.
pub open spec fn branch_target(next_pc: u32, instr: u32) -> u32 {
    wsub(wadd(next_pc, se(instr) << 2u32), 4)
}

/// The target of J and JAL.
pub open spec fn jump_target(next_pc: u32, instr: u32) -> u32 {
    (next_pc & 0xF000_0000) | ((instr & 0x03FF_FFFF) << 2u32)
}

#[derive(Debug, Clone, Copy, PartialEq, Eq, Structural)]
pub enum CpuError {
    /// A bus access that no device answers (a fatal host error).
    Bus(BusError),
    /// A GTE function word with no command.
    Gte(crate::gte::GteError),
}

/// The exception vectors.
pub open spec fn is_vector(pc: u32) -> bool {
    pc == 0x8000_0080 || pc == 0xBFC0_0180
}

/// The effective address of a load or store: R[rs] plus the sign-extended offset.
pub open spec fn load_addr(r: Seq<u32>, instr: u32) -> u32 {
    wadd(r[((instr >> 21u32) & 0x1F) as int], se(instr))
}

/// The value LB, LBU, LH, LHU or LW (opcode `op`) reads at `a` from main memory,
/// sign- or zero-extended to a word.
pub open spec fn ram_load(dram: Seq<u8>, op: u32, a: u32) -> u32 {
    let o = (physical(a) & 0x1F_FFFF) as int;
    if op == 0x20 {
        (dram[o] as i8) as u32
    } else if op == 0x24 {
        dram[o] as u32
    } else if op == 0x21 {
        (le16(dram, o) as i16) as u32
    } else if op == 0x25 {
        le16(dram, o) as u32
    } else {
        le32(dram, o)
    }
}

/// Whether `a` is aligned for the access size of load opcode `op`.
pub open spec fn load_aligned(op: u32, a: u32) -> bool {
    if op == 0x21 || op == 0x25 {
        a & 1 == 0
    } else if op == 0x23 {
        a & 3 == 0
    } else {
        true
    }
}

pub open spec fn is_load(op: u32) -> bool {
    op == 0x20 || op == 0x21 || op == 0x23 || op == 0x24 || op == 0x25
}

/// Register fields of an instruction word are below 32.
proof fn lemma_fields(instr: u32, a: u32)
    by (bit_vector)
    ensures
        a & 31 < 32,
        (instr >> 21u32) & 0x1F < 32,
        (instr >> 16u32) & 0x1F < 32,
        (instr >> 11u32) & 0x1F < 32,
        (instr >> 6u32) & 0x1F < 32,
        instr & 0x3F < 64,
        instr >> 26u32 < 64,
{
}


/// The CPU state the instruction contracts speak of.
pub struct CpuView {
    pub regs: Seq<u32>,
    pub pending: Seq<Option<(u32, u32)>>,
    pub pc: u32,
    pub next_pc: u32,
    pub current_pc: u32,
    pub branch: bool,
    pub delay_slot: bool,
    pub hi: u32,
    pub lo: u32,
    pub cop0: Seq<u32>,
    pub dram: Seq<u8>,
}

impl View for CPU {
    type V = CpuView;

    open spec fn view(&self) -> CpuView {
        CpuView {
            regs: self.R.R@,
            pending: self.pending_writes@,
            pc: self.pc,
            next_pc: self.next_pc,
            current_pc: self.current_pc,
            branch: self.branch,
            delay_slot: self.delay_slot,
            hi: self.hi,
            lo: self.lo,
            cop0: self.bus.cop0.regs(),
            dram: self.bus.dram.data@,
        }
    }
}

/// The handler vector cop0's BEV bit selects.
pub open spec fn vector_of(cop0: Seq<u32>) -> u32 {
    if cop0[12] & 0x40_0000 != 0 { 0xBFC0_0180 } else { 0x8000_0080 }
}

/// `post` is `pre` after taking exception `code`: cop0 saves the state (EPC,
/// CAUSE, the mode stack), the PC pair moves to the vector, the load this
/// instruction scheduled is dropped, and nothing else changes.
pub open spec fn exception_view(pre: CpuView, post: CpuView, code: u32) -> bool {
    &&& post.pc == vector_of(pre.cop0)
    &&& post.next_pc == wadd(post.pc, 4)
    &&& !post.branch
    &&& post.regs == pre.regs
    &&& post.pending == pre.pending.update(1, None)
    &&& post.cop0 == crate::system_control::raised(pre.cop0, code, pre.current_pc, pre.pc, pre.delay_slot)
    &&& post.hi == pre.hi && post.lo == pre.lo
    &&& post.dram == pre.dram
}

/// The PC pair and branch flag stay as they are.
pub open spec fn same_flow(pre: CpuView, post: CpuView) -> bool {
    post.pc == pre.pc && post.next_pc == pre.next_pc && post.branch == pre.branch
}

/// Only the register pipeline may change.
pub open spec fn quiet(pre: CpuView, post: CpuView) -> bool {
    same_flow(pre, post) && post.cop0 == pre.cop0 && post.dram == pre.dram && post.hi == pre.hi
        && post.lo == pre.lo
}

/// An ALU-style write of `v` to `d`: the write pending from the previous
/// instruction lands, then this one waits in slot 0.
pub open spec fn alu_written(pre: CpuView, post: CpuView, d: u32, v: u32) -> bool {
    &&& post.regs == committed(pre.regs, pre.pending[0])
    &&& post.pending == pre.pending.update(0, Some((d, v)))
    &&& quiet(pre, post)
}

/// Registers and pending writes untouched.
pub open spec fn regs_kept(pre: CpuView, post: CpuView) -> bool {
    post.regs == pre.regs && post.pending == pre.pending
}

/// Opcodes of coprocessors 1 and 3, and their loads and stores.
pub open spec fn cop_unusable(op: u32) -> bool {
    op == 0x11 || op == 0x13 || op == 0x30 || op == 0x31 || op == 0x33 || op == 0x38 || op == 0x39
        || op == 0x3B
}

/// Instruction words with no instruction: unknown opcodes and SPECIAL functions.
pub open spec fn reserved(instr: u32) -> bool {
    let op = instr >> 26u32;
    let f = instr & 0x3F;
    if op == 0 {
        !(is_alu_r(f) || f == 0x08 || f == 0x09 || f == 0x0C || f == 0x0D || (0x10 <= f <= 0x13) || (
        0x18 <= f <= 0x1B) || f == 0x20 || f == 0x22)
    } else {
        !((1 <= op <= 0x0F) || op == 0x10 || op == 0x12 || cop_unusable(op) || (0x20 <= op <= 0x26)
            || op == 0x28 || op == 0x29 || op == 0x2A || op == 0x2B || op == 0x2E || op == 0x32 || op
            == 0x3A)
    }
}

/// Whether the branch or jump in `instr` is taken, given R[rs] = `a` and R[rt] = `b`.
pub open spec fn branch_taken(instr: u32, a: u32, b: u32) -> bool {
    let op = instr >> 26u32;
    if op == 0x04 {
        a == b
    } else if op == 0x05 {
        a != b
    } else if op == 0x06 {
        (a as i32) <= 0
    } else if op == 0x07 {
        (a as i32) > 0
    } else {
        ((a as i32) < 0) != ((instr >> 16u32) & 1 != 0)
    }
}

/// Main memory after a store of R[rt] by SB, SH or SW at `a`.
pub open spec fn ram_stored(dram: Seq<u8>, op: u32, a: u32, v: u32) -> Seq<u8> {
    let o = (physical(a) & 0x1F_FFFF) as int;
    if op == 0x28 {
        dram.update(o, v as u8)
    } else if op == 0x29 {
        crate::bytes::store16(dram, o, v as u16)
    } else {
        crate::bytes::store32(dram, o, v)
    }
}

/// What one instruction does, by class. `pre` is the state with the PC pair
/// already advanced past it.
pub open spec fn execute_post(pre: CpuView, post: CpuView, instr: u32, r: Result<(), CpuError>) -> bool {
    let op = instr >> 26u32;
    let f = instr & 0x3F;
    let rs = (instr >> 21u32) & 0x1F;
    let rt = (instr >> 16u32) & 0x1F;
    let rd = (instr >> 11u32) & 0x1F;
    let a = pre.regs[rs as int];
    let b = pre.regs[rt as int];
    let addr = load_addr(pre.regs, instr);
    &&& op == 0 && is_alu_r(f) ==> r.is_ok() && alu_written(pre, post, rd, alu_r(f, a, b, (instr >> 6u32) & 0x1F))
    &&& is_alu_i(op) ==> r.is_ok() && alu_written(pre, post, rt, alu_i(op, a, instr))
    &&& op == 0 && f == 0x20 ==> r.is_ok() && if add_fits(a, b) { alu_written(pre, post, rd, wadd(a, b)) } else { exception_view(pre, post, 0x0C) }
    &&& op == 0 && f == 0x22 ==> r.is_ok() && if sub_fits(a, b) { alu_written(pre, post, rd, wsub(a, b)) } else { exception_view(pre, post, 0x0C) }
    &&& op == 0x08 ==> r.is_ok() && if add_fits(a, se(instr)) { alu_written(pre, post, rt, wadd(a, se(instr))) } else { exception_view(pre, post, 0x0C) }
    &&& op == 0 && f == 0x0C ==> r.is_ok() && exception_view(pre, post, 0x08)
    &&& op == 0 && f == 0x0D ==> r.is_ok() && exception_view(pre, post, 0x09)
    &&& reserved(instr) ==> r.is_ok() && exception_view(pre, post, 0x0A)
    &&& cop_unusable(op) ==> r.is_ok() && exception_view(pre, post, 0x0B)
    &&& op == 0 && f == 0x10 ==> r.is_ok() && alu_written(pre, post, rd, pre.hi)
    &&& op == 0 && f == 0x12 ==> r.is_ok() && alu_written(pre, post, rd, pre.lo)
    &&& op == 0 && f == 0x11 ==> r.is_ok() && regs_kept(pre, post) && same_flow(pre, post) && post.hi == a && post.lo == pre.lo
    &&& op == 0 && f == 0x13 ==> r.is_ok() && regs_kept(pre, post) && same_flow(pre, post) && post.lo == a && post.hi == pre.hi
    &&& op == 0 && 0x18 <= f <= 0x1B ==> r.is_ok() && regs_kept(pre, post) && same_flow(pre, post)
    &&& op == 0 && f == 0x1A ==> (post.hi, post.lo) == div_result(a, b)
    &&& op == 0 && f == 0x1B ==> (post.hi, post.lo) == divu_result(a, b)
    &&& op == 0x02 ==> r.is_ok() && regs_kept(pre, post) && post.branch && post.pc == pre.pc && post.next_pc == jump_target(pre.next_pc, instr)
    &&& op == 0x03 ==> r.is_ok() && post.regs == committed(pre.regs, pre.pending[0]) && post.pending == pre.pending.update(0, Some((31u32, pre.next_pc)))
        && post.branch && post.pc == pre.pc && post.next_pc == jump_target(pre.next_pc, instr)
    &&& 0x04 <= op <= 0x07 ==> r.is_ok() && regs_kept(pre, post) && post.pc == pre.pc && (if branch_taken(instr, a, b) {
        post.branch && post.next_pc == branch_target(pre.next_pc, instr)
    } else {
        same_flow(pre, post)
    })
    &&& op == 0x01 ==> r.is_ok() && post.pc == pre.pc && (if branch_taken(instr, a, b) {
        post.branch && post.next_pc == branch_target(pre.next_pc, instr)
    } else {
        same_flow(pre, post)
    }) && (if (instr >> 17u32) & 0xF == 8 {
        post.regs == committed(pre.regs, pre.pending[0]) && post.pending == pre.pending.update(0, Some((31u32, pre.next_pc)))
    } else {
        regs_kept(pre, post)
    })
    &&& op == 0 && f == 0x08 ==> r.is_ok() && regs_kept(pre, post) && post.branch && post.pc == pre.pc && post.next_pc == a
    &&& op == 0 && f == 0x09 ==> r.is_ok() && post.regs == committed(pre.regs, pre.pending[0]) && post.pending == pre.pending.update(0, Some((rd, pre.next_pc)))
        && post.branch && post.pc == pre.pc && post.next_pc == a
    &&& is_load(op) && !load_aligned(op, addr) ==> r.is_ok() && exception_view(pre, post, 0x04)
    &&& is_load(op) ==> post.regs == pre.regs && post.pending[0] == pre.pending[0]
    &&& is_load(op) && load_aligned(op, addr) && physical(addr) < 0x0080_0000 ==> r.is_ok() && same_flow(pre, post)
        && post.pending == pre.pending.update(1, Some((rt, ram_load(pre.dram, op, addr))))
    &&& (op == 0x28 || op == 0x29 || op == 0x2B) && !load_aligned((op - 8) as u32, addr) ==> r.is_ok() && exception_view(pre, post, 0x05)
    &&& (op == 0x28 || op == 0x29 || op == 0x2B) && load_aligned((op - 8) as u32, addr) && pre.cop0[12] & 0x10000 != 0 ==> r.is_ok()
        && regs_kept(pre, post) && post.dram == pre.dram && same_flow(pre, post)
    &&& (op == 0x28 || op == 0x29 || op == 0x2B) && load_aligned((op - 8) as u32, addr) && pre.cop0[12] & 0x10000 == 0 && physical(addr)
        < 0x0080_0000 ==> r.is_ok() && regs_kept(pre, post) && same_flow(pre, post) && post.dram == ram_stored(pre.dram, op, addr, b)
    &&& op == 0x10 && rs == 0 ==> r.is_ok() && post.regs == pre.regs && post.pending == pre.pending.update(1, Some((rt, pre.cop0[rd as int])))
        && same_flow(pre, post) && post.cop0 == pre.cop0
    &&& op == 0x10 && rs == 4 ==> r.is_ok() && regs_kept(pre, post) && same_flow(pre, post)
        && post.cop0 == crate::system_control::written(pre.cop0, rd, b)
    &&& op == 0x10 && rs == 0x10 ==> r.is_ok() && regs_kept(pre, post) && same_flow(pre, post)
        && post.cop0 == pre.cop0.update(12, crate::system_control::rfe_sr(pre.cop0[12]))
}

impl CPU {
    fn alu_register(&mut self, instr: u32)
        requires
            old(self).wf(),
            is_alu_r(instr & 0x3F),
        ensures
            final(self).hi == old(self).hi && final(self).lo == old(self).lo,
            final(self).current_pc == old(self).current_pc && final(self).delay_slot == old(self).delay_slot,
            final(self).wf(),
            ({
                let a = old(self).regs()[((instr >> 21u32) & 0x1F) as int];
                let b = old(self).regs()[((instr >> 16u32) & 0x1F) as int];
                let v = alu_r(instr & 0x3F, a, b, (instr >> 6u32) & 0x1F);
                &&& final(self).regs() == committed(old(self).regs(), old(self).pending_writes@[0])
                &&& final(self).pending_writes@ == old(self).pending_writes@.update(0, Some(((instr >> 11u32) & 0x1F, v)))
            }),
            final(self).pc == old(self).pc && final(self).next_pc == old(self).next_pc,
            final(self).branch == old(self).branch,
            final(self).bus == old(self).bus,
    {
        proof {
            lemma_fields(instr, 0);
        }
        let a = self.reg(((instr >> 21u32) & 0x1F));
        let b = self.reg(((instr >> 16u32) & 0x1F));
        let shamt = ((instr >> 6u32) & 0x1F);
        proof {
            lemma_fields(instr, a);
        }
        let f = (instr & 0x3F);
        let v = if f == 0x00 {
            b << shamt
        } else if f == 0x02 {
            b >> shamt
        } else if f == 0x03 {
            ((b as i32) >> shamt) as u32
        } else if f == 0x04 {
            b << (a & 31)
        } else if f == 0x06 {
            b >> (a & 31)
        } else if f == 0x07 {
            ((b as i32) >> (a & 31)) as u32
        } else if f == 0x21 {
            a.wrapping_add(b)
        } else if f == 0x23 {
            a.wrapping_sub(b)
        } else if f == 0x24 {
            a & b
        } else if f == 0x25 {
            a | b
        } else if f == 0x26 {
            a ^ b
        } else if f == 0x27 {
            !(a | b)
        } else if f == 0x2A {
            if (a as i32) < (b as i32) { 1 } else { 0 }
        } else {
            if a < b { 1 } else { 0 }
        };
        self.write_register(((instr >> 11u32) & 0x1F), v);
    }

    fn alu_immediate(&mut self, instr: u32)
        requires
            old(self).wf(),
            is_alu_i(instr >> 26u32),
        ensures
            final(self).hi == old(self).hi && final(self).lo == old(self).lo,
            final(self).current_pc == old(self).current_pc && final(self).delay_slot == old(self).delay_slot,
            final(self).wf(),
            ({
                let a = old(self).regs()[((instr >> 21u32) & 0x1F) as int];
                let v = alu_i(instr >> 26u32, a, instr);
                &&& final(self).regs() == committed(old(self).regs(), old(self).pending_writes@[0])
                &&& final(self).pending_writes@ == old(self).pending_writes@.update(0, Some(((instr >> 16u32) & 0x1F, v)))
            }),
            final(self).pc == old(self).pc && final(self).next_pc == old(self).next_pc,
            final(self).branch == old(self).branch,
            final(self).bus == old(self).bus,
    {
        proof {
            lemma_fields(instr, 0);
        }
        let op = instr >> 26u32;
        let a = self.reg(((instr >> 21u32) & 0x1F));
        let imm = instr & 0xFFFF;
        let s = (instr as i16 as u32);
        let v = if op == 0x09 {
            a.wrapping_add(s)
        } else if op == 0x0A {
            if (a as i32) < (s as i32) { 1 } else { 0 }
        } else if op == 0x0B {
            if a < s { 1 } else { 0 }
        } else if op == 0x0C {
            a & imm
        } else if op == 0x0D {
            a | imm
        } else if op == 0x0E {
            a ^ imm
        } else {
            imm << 16u32
        };
        self.write_register(((instr >> 16u32) & 0x1F), v);
    }

    /// ADD, ADDI and SUB: the signed result, or an overflow exception.
    fn add_trapping(&mut self, dest: u32, a: u32, b: u32, subtract: bool)
        requires
            old(self).wf(),
            dest < 32,
        ensures
            (if subtract { sub_fits(a, b) } else { add_fits(a, b) }) ==> alu_written(old(self)@, final(self)@, dest, if subtract { wsub(a, b) } else { wadd(a, b) }),
            !(if subtract { sub_fits(a, b) } else { add_fits(a, b) }) ==> exception_view(old(self)@, final(self)@, 0x0C),
            final(self).current_pc == old(self).current_pc && final(self).delay_slot == old(self).delay_slot,
            final(self).pc == old(self).pc || is_vector(final(self).pc),
            final(self).wf(),
            ({
                let fits = if subtract { sub_fits(a, b) } else { add_fits(a, b) };
                let v = if subtract { wsub(a, b) } else { wadd(a, b) };
                &&& fits ==> final(self).regs() == committed(old(self).regs(), old(self).pending_writes@[0])
                    && final(self).pending_writes@ == old(self).pending_writes@.update(0, Some((dest, v)))
                    && final(self).pc == old(self).pc && final(self).next_pc == old(self).next_pc
                    && final(self).branch == old(self).branch
                &&& !fits ==> final(self).regs() == old(self).regs() && final(self).bus.cop0.regs()[13]
                    & 0x7C == cause_code(Cause::Ovf) << 2u32
            }),
    {
        let x = a as i32 as i64;
        let y = b as i32 as i64;
        let r = if subtract {
            x - y
        } else {
            x + y
        };
        if r < i32::MIN as i64 || r > i32::MAX as i64 {
            self.raise_exception(Cause::Ovf);
            assert(((0x0Cu32 << 2u32) | 0xC000_0000u32) & 0x7C == 0x0Cu32 << 2u32 && ((0x0Cu32
                << 2u32) & !0xC000_0000u32) & 0x7C == 0x0Cu32 << 2u32) by (bit_vector);
        } else {
            let v = if subtract {
                a.wrapping_sub(b)
            } else {
                a.wrapping_add(b)
            };
            self.write_register(dest, v);
        }
    }

    fn multiply_divide(&mut self, instr: u32)
        requires
            old(self).wf(),
            0x18 <= instr & 0x3F <= 0x1B,
        ensures
            final(self).current_pc == old(self).current_pc && final(self).delay_slot == old(self).delay_slot,
            final(self).wf(),
            ({
                let a = old(self).regs()[((instr >> 21u32) & 0x1F) as int];
                let b = old(self).regs()[((instr >> 16u32) & 0x1F) as int];
                let f = instr & 0x3F;
                &&& f == 0x18 ==> {
                    let p = ((a as i32) as int * (b as i32) as int) as i64;
                    final(self).lo == p as u32 && final(self).hi == (p >> 32u64) as u32
                }
                &&& f == 0x19 ==> final(self).lo == (a as int * b as int) as u32 && final(self).hi
                    == ((a as int * b as int) / 0x1_0000_0000) as u32
                &&& f == 0x1A ==> (final(self).hi, final(self).lo) == div_result(a, b)
                &&& f == 0x1B ==> (final(self).hi, final(self).lo) == divu_result(a, b)
            }),
            final(self).regs() == old(self).regs(),
            final(self).pending_writes == old(self).pending_writes,
            final(self).pc == old(self).pc && final(self).next_pc == old(self).next_pc,
            final(self).branch == old(self).branch,
            final(self).bus == old(self).bus,
    {
        proof {
            lemma_fields(instr, 0);
        }
        let a = self.reg(((instr >> 21u32) & 0x1F));
        let b = self.reg(((instr >> 16u32) & 0x1F));
        let f = (instr & 0x3F);
        if f == 0x18 {
            let x = a as i32 as i64;
            let y = b as i32 as i64;
            assert(-0x4000_0000_0000_0000 <= x * y <= 0x4000_0000_0000_0000) by (nonlinear_arith)
                requires i32::MIN <= x <= i32::MAX, i32::MIN <= y <= i32::MAX;
            let p = x * y;
            self.lo = p as u32;
            self.hi = (p >> 32u64) as u32;
        } else if f == 0x19 {
            let x = a as u64;
            let y = b as u64;
            assert(x * y <= 0xFFFF_FFFF * 0xFFFF_FFFF) by (nonlinear_arith)
                requires x <= 0xFFFF_FFFF, y <= 0xFFFF_FFFF;
            let p = x * y;
            self.lo = p as u32;
            self.hi = (p / 0x1_0000_0000) as u32;
        } else if f == 0x1A {
            let n = a as i32;
            let d = b as i32;
            if d == 0 {
                self.hi = a;
                self.lo = if n < 0 { 1 } else { 0xFFFF_FFFF };
            } else if n == i32::MIN && d == -1 {
                self.hi = 0;
                self.lo = 0x8000_0000;
            } else {
                let mn: u32 = if n < 0 { (0 - (n as i64)) as u32 } else { n as u32 };
                let md: u32 = if d < 0 { (0 - (d as i64)) as u32 } else { d as u32 };
                let q = mn / md;
                let r = mn % md;
                let sq: i64 = if (n < 0) != (d < 0) { 0 - (q as i64) } else { q as i64 };
                let sr: i64 = if n < 0 { 0 - (r as i64) } else { r as i64 };
                self.hi = sr as i32 as u32;
                self.lo = sq as i32 as u32;
            }
        } else {
            if b == 0 {
                self.hi = a;
                self.lo = 0xFFFF_FFFF;
            } else {
                self.hi = a % b;
                self.lo = a / b;
            }
        }
    }

    /// Sets up a taken branch or jump: the delay slot runs, then `target`.
    fn jump_to(&mut self, target: u32)
        requires
            old(self).wf(),
        ensures
            final(self).hi == old(self).hi && final(self).lo == old(self).lo,
            final(self).current_pc == old(self).current_pc && final(self).delay_slot == old(self).delay_slot,
            final(self).wf(),
            final(self).next_pc == target,
            final(self).branch,
            final(self).pc == old(self).pc,
            final(self).regs() == old(self).regs(),
            final(self).pending_writes == old(self).pending_writes,
            final(self).bus == old(self).bus,
    {
        self.branch = true;
        self.next_pc = target;
    }
}

impl CPU {
    fn isolated(&self) -> (r: bool)
        ensures
            r == (self.bus.cop0.regs()[12] & 0x10000 != 0),
    {
        self.bus.cop0.read_register(12) & 0x10000 != 0
    }

    /// Loads and stores, LWC2 and SWC2. A load schedules its register write
    /// for after the next instruction, so the register file is untouched.
    fn memory_access(&mut self, instr: u32) -> (r: Result<(), CpuError>)
        requires
            old(self).wf(),
        ensures
            final(self).current_pc == old(self).current_pc && final(self).delay_slot == old(self).delay_slot,
            ({
                let pre = old(self)@;
                let post = final(self)@;
                let op = instr >> 26u32;
                let rt = (instr >> 16u32) & 0x1F;
                let b = pre.regs[rt as int];
                let addr = load_addr(pre.regs, instr);
                &&& is_load(op) && !load_aligned(op, addr) ==> r.is_ok() && exception_view(pre, post, 0x04)
                &&& is_load(op) && load_aligned(op, addr) && physical(addr) < 0x0080_0000 ==> same_flow(pre, post)
                    && post.pending == pre.pending.update(1, Some((rt, ram_load(pre.dram, op, addr))))
                &&& (op == 0x28 || op == 0x29 || op == 0x2B) && !load_aligned((op - 8) as u32, addr) ==> r.is_ok() && exception_view(pre, post, 0x05)
                &&& (op == 0x28 || op == 0x29 || op == 0x2B) && load_aligned((op - 8) as u32, addr) && pre.cop0[12] & 0x10000 != 0 ==> r.is_ok()
                    && regs_kept(pre, post) && post.dram == pre.dram && same_flow(pre, post)
                &&& (op == 0x28 || op == 0x29 || op == 0x2B) && load_aligned((op - 8) as u32, addr) && pre.cop0[12] & 0x10000 == 0 && physical(addr)
                    < 0x0080_0000 ==> r.is_ok() && regs_kept(pre, post) && same_flow(pre, post) && post.dram == ram_stored(pre.dram, op, addr, b)
            }),
            final(self).pc == old(self).pc || is_vector(final(self).pc),
            final(self).wf(),
            is_load(instr >> 26u32) ==> final(self).regs() == old(self).regs()
                && final(self).pending_writes@[0] == old(self).pending_writes@[0],
            ({
                let op = instr >> 26u32;
                let a = load_addr(old(self).regs(), instr);
                is_load(op) && load_aligned(op, a) && physical(a) < 0x0080_0000 ==> r.is_ok()
                    && final(self).pending_writes@[1] == Some(((instr >> 16u32) & 0x1F, ram_load(old(self).bus.dram.data@, op, a)))
            }),
    {
        proof {
            lemma_fields(instr, 0);
        }
        let op = instr >> 26u32;
        let rt = (instr >> 16u32) & 0x1F;
        let base = self.reg((instr >> 21u32) & 0x1F);
        let addr = base.wrapping_add(instr as i16 as u32);
        if op == 0x20 || op == 0x24 {
            match self.bus.read8(addr) {
                Ok(b) => {
                    let v = if op == 0x20 { b as i8 as u32 } else { b as u32 };
                    self.schedule_write(rt, v);
                    Ok(())
                },
                Err(e) => Err(CpuError::Bus(e)),
            }
        } else if op == 0x21 || op == 0x25 {
            if addr & 1 != 0 {
                self.raise_exception(Cause::AdEL);
                return Ok(());
            }
            match self.bus.read16(addr) {
                Ok(h) => {
                    let v = if op == 0x21 { h as i16 as u32 } else { h as u32 };
                    self.schedule_write(rt, v);
                    Ok(())
                },
                Err(e) => Err(CpuError::Bus(e)),
            }
        } else if op == 0x23 || op == 0x32 {
            if addr & 3 != 0 {
                self.raise_exception(Cause::AdEL);
                return Ok(());
            }
            match self.bus.read32(addr) {
                Ok(w) => {
                    if op == 0x23 {
                        self.schedule_write(rt, w);
                    } else {
                        self.gte.write_data_register(rt, w);
                    }
                    Ok(())
                },
                Err(e) => Err(CpuError::Bus(e)),
            }
        } else if op == 0x22 || op == 0x26 {
            let mut current = self.reg(rt);
            match self.pending_writes[0] {
                Some((r, v)) => {
                    if r == rt {
                        current = v;
                    }
                },
                None => {},
            }
            match self.bus.read32(addr & !3u32) {
                Ok(w) => {
                    let k = addr & 3;
                    let v = if op == 0x22 {
                        if k == 0 {
                            (current & 0x00FF_FFFF) | (w << 24u32)
                        } else if k == 1 {
                            (current & 0x0000_FFFF) | (w << 16u32)
                        } else if k == 2 {
                            (current & 0x0000_00FF) | (w << 8u32)
                        } else {
                            w
                        }
                    } else {
                        if k == 0 {
                            w
                        } else if k == 1 {
                            (current & 0xFF00_0000) | (w >> 8u32)
                        } else if k == 2 {
                            (current & 0xFFFF_0000) | (w >> 16u32)
                        } else {
                            (current & 0xFFFF_FF00) | (w >> 24u32)
                        }
                    };
                    self.schedule_write(rt, v);
                    Ok(())
                },
                Err(e) => Err(CpuError::Bus(e)),
            }
        } else {
            self.store(instr, addr)
        }
    }

    /// SB, SH, SW, SWL, SWR and SWC2; while cop0 isolates the cache they write nothing.
    fn store(&mut self, instr: u32, addr: u32) -> (r: Result<(), CpuError>)
        requires
            old(self).wf(),
        ensures
            final(self).current_pc == old(self).current_pc && final(self).delay_slot == old(self).delay_slot,
            ({
                let pre = old(self)@;
                let post = final(self)@;
                let op = instr >> 26u32;
                let b = pre.regs[((instr >> 16u32) & 0x1F) as int];
                &&& (op == 0x28 || op == 0x29 || op == 0x2B) && !load_aligned((op - 8) as u32, addr) ==> r.is_ok() && exception_view(pre, post, 0x05)
                &&& (op == 0x28 || op == 0x29 || op == 0x2B) && load_aligned((op - 8) as u32, addr) && pre.cop0[12] & 0x10000 != 0 ==> r.is_ok()
                    && regs_kept(pre, post) && post.dram == pre.dram && same_flow(pre, post)
                &&& (op == 0x28 || op == 0x29 || op == 0x2B) && load_aligned((op - 8) as u32, addr) && pre.cop0[12] & 0x10000 == 0 && physical(addr)
                    < 0x0080_0000 ==> r.is_ok() && regs_kept(pre, post) && same_flow(pre, post) && post.dram == ram_stored(pre.dram, op, addr, b)
            }),
            final(self).pc == old(self).pc || is_vector(final(self).pc),
            final(self).wf(),
            final(self).regs() == old(self).regs(),
    {
        proof {
            lemma_fields(instr, 0);
        }
        let op = instr >> 26u32;
        let rt = (instr >> 16u32) & 0x1F;
        let value = if op == 0x3A {
            self.gte.read_data_register(rt)
        } else {
            self.reg(rt)
        };
        if (op == 0x29 && addr & 1 != 0) || ((op == 0x2B || op == 0x3A) && addr & 3 != 0) {
            self.raise_exception(Cause::AdES);
            return Ok(());
        }
        if self.isolated() {
            return Ok(());
        }
        let done = if op == 0x28 {
            self.bus.write8(addr, value as u8)
        } else if op == 0x29 {
            self.bus.write16(addr, value as u16)
        } else if op == 0x2B || op == 0x3A {
            self.bus.write32(addr, value)
        } else {
            match self.bus.read32(addr & !3u32) {
                Ok(m) => {
                    let k = addr & 3;
                    let merged = if op == 0x2A {
                        if k == 0 {
                            (m & 0xFFFF_FF00) | (value >> 24u32)
                        } else if k == 1 {
                            (m & 0xFFFF_0000) | (value >> 16u32)
                        } else if k == 2 {
                            (m & 0xFF00_0000) | (value >> 8u32)
                        } else {
                            value
                        }
                    } else {
                        if k == 0 {
                            value
                        } else if k == 1 {
                            (m & 0x0000_00FF) | (value << 8u32)
                        } else if k == 2 {
                            (m & 0x0000_FFFF) | (value << 16u32)
                        } else {
                            (m & 0x00FF_FFFF) | (value << 24u32)
                        }
                    };
                    self.bus.write32(addr & !3u32, merged)
                },
                Err(e) => Err(e),
            }
        };
        match done {
            Ok(()) => Ok(()),
            Err(e) => Err(CpuError::Bus(e)),
        }
    }

    /// Coprocessor 0 and 2 register moves, RFE and GTE commands.
    #[verifier::rlimit(80)]
    fn coprocessor(&mut self, instr: u32) -> (r: Result<(), CpuError>)
        requires
            old(self).wf(),
        ensures
            ({
                let op = instr >> 26u32;
                let rs = (instr >> 21u32) & 0x1F;
                let rt = (instr >> 16u32) & 0x1F;
                let rd = (instr >> 11u32) & 0x1F;
                let b = old(self).regs()[rt as int];
                let cop2 = op == 0x12 && instr & 0x0200_0000 == 0;
                &&& op == 0x12 && instr & 0x0200_0000 != 0 ==> (r.is_ok() <==> crate::gte::known_command(instr & 0x3F))
                    && final(self).regs() == old(self).regs() && final(self).pending_writes == old(self).pending_writes
                    && final(self).pc == old(self).pc && final(self).next_pc == old(self).next_pc
                &&& op == 0x12 && instr & 0x0200_0000 != 0 && r.is_ok() ==> final(self).gte.regs() == crate::gte::command_effect(
                    old(self).gte.regs().update(63, 0), instr, old(self).gte.UNR_TABLE@).0
                &&& cop2 && rs == 0 ==> r.is_ok() && final(self).regs() == old(self).regs() && final(self).pending_writes@
                    == old(self).pending_writes@.update(1, Some((rt, crate::gte::data_read(old(self).gte.regs(), rd))))
                &&& cop2 && rs == 4 ==> r.is_ok() && final(self).regs() == old(self).regs() && final(self).gte.regs()
                    == crate::gte::data_written(old(self).gte.regs(), rd, b)
                &&& cop2 && rs == 6 ==> r.is_ok() && final(self).regs() == old(self).regs() && final(self).gte.regs()
                    == old(self).gte.regs().update(rd + 32, if rd + 32 == 58 { b as u16 as u32 } else if rd + 32 == 63 {
                        (old(self).gte.regs()[63] & 0x8000_0FFF) | (b & !0x8000_0FFFu32)
                    } else {
                        b
                    })
            }),
            final(self).current_pc == old(self).current_pc && final(self).delay_slot == old(self).delay_slot,
            ({
                let pre = old(self)@;
                let post = final(self)@;
                let op = instr >> 26u32;
                let rs = (instr >> 21u32) & 0x1F;
                let rt = (instr >> 16u32) & 0x1F;
                let rd = (instr >> 11u32) & 0x1F;
                &&& op == 0x10 && rs == 0 ==> r.is_ok() && post.regs == pre.regs && post.pending == pre.pending.update(1, Some((rt, pre.cop0[rd as int])))
                    && same_flow(pre, post) && post.cop0 == pre.cop0
                &&& op == 0x10 && rs == 4 ==> r.is_ok() && regs_kept(pre, post) && same_flow(pre, post)
                    && post.cop0 == crate::system_control::written(pre.cop0, rd, pre.regs[rt as int])
                &&& op == 0x10 && rs == 0x10 ==> r.is_ok() && regs_kept(pre, post) && same_flow(pre, post)
                    && post.cop0 == pre.cop0.update(12, crate::system_control::rfe_sr(pre.cop0[12]))
            }),
            final(self).pc == old(self).pc || is_vector(final(self).pc),
            final(self).wf(),
    {
        proof {
            lemma_fields(instr, 0);
        }
        let op = instr >> 26u32;
        let sub = (instr >> 21u32) & 0x1F;
        let rt = (instr >> 16u32) & 0x1F;
        let rd = (instr >> 11u32) & 0x1F;
        if op == 0x10 {
            if sub == 0 {
                let v = self.bus.cop0.read_register(rd);
                self.schedule_write(rt, v);
            } else if sub == 4 {
                let v = self.reg(rt);
                self.bus.cop0.write_register(rd, v);
            } else if sub == 0x10 {
                self.bus.cop0.rfe();
            } else {
                self.raise_exception(Cause::RI);
            }
            Ok(())
        } else if instr & 0x0200_0000 != 0 {
            match self.gte.issue_command(instr) {
                Ok(()) => Ok(()),
                Err(e) => Err(CpuError::Gte(e)),
            }
        } else {
            if sub == 0 {
                let v = self.gte.read_data_register(rd);
                self.schedule_write(rt, v);
            } else if sub == 2 {
                let v = self.gte.read_ctrl_register(rd);
                self.schedule_write(rt, v);
            } else if sub == 4 {
                let v = self.reg(rt);
                self.gte.write_data_register(rd, v);
            } else if sub == 6 {
                let v = self.reg(rt);
                self.gte.write_ctrl_register(rd, v);
            } else if sub == 8 {
                if instr & 0x0001_0000 != 0 {
                    let t = self.next_pc.wrapping_add((instr as i16 as u32) << 2u32).wrapping_sub(4);
                    self.jump_to(t);
                }
            } else {
                self.raise_exception(Cause::RI);
            }
            Ok(())
        }
    }

    /// Branches and jumps; a taken one sets the next PC and marks the delay slot.
    fn control_transfer(&mut self, instr: u32)
        requires
            (1 <= instr >> 26u32 <= 7) || (instr >> 26u32 == 0 && ((instr & 0x3F) == 8 || (instr & 0x3F) == 9)),
            old(self).wf(),
        ensures
            final(self).current_pc == old(self).current_pc && final(self).delay_slot == old(self).delay_slot,
            final(self).hi == old(self).hi && final(self).lo == old(self).lo,
            final(self).bus == old(self).bus,
            ({
                let op = instr >> 26u32;
                let pre = old(self)@;
                let post = final(self)@;
                let a = pre.regs[((instr >> 21u32) & 0x1F) as int];
                let b = pre.regs[((instr >> 16u32) & 0x1F) as int];
                &&& op == 0x02 ==> regs_kept(pre, post) && post.branch && post.next_pc == jump_target(pre.next_pc, instr)
                &&& op == 0x03 ==> post.regs == committed(pre.regs, pre.pending[0]) && post.pending == pre.pending.update(0, Some((31u32, pre.next_pc)))
                &&& 0x04 <= op <= 0x07 ==> regs_kept(pre, post) && (if branch_taken(instr, a, b) {
                    post.branch && post.next_pc == branch_target(pre.next_pc, instr)
                } else {
                    same_flow(pre, post)
                })
                &&& op == 0x01 ==> (if branch_taken(instr, a, b) {
                    post.branch && post.next_pc == branch_target(pre.next_pc, instr)
                } else {
                    same_flow(pre, post)
                }) && (if (instr >> 17u32) & 0xF == 8 {
                    post.regs == committed(pre.regs, pre.pending[0]) && post.pending == pre.pending.update(0, Some((31u32, pre.next_pc)))
                } else {
                    regs_kept(pre, post)
                })
                &&& !(0x01 <= op <= 0x07) && (instr & 0x3F) == 0x08 ==> regs_kept(pre, post) && post.branch && post.next_pc == a
                &&& !(0x01 <= op <= 0x07) && (instr & 0x3F) != 0x08 ==> post.regs == committed(pre.regs, pre.pending[0])
                    && post.pending == pre.pending.update(0, Some(((instr >> 11u32) & 0x1F, pre.next_pc)))
                    && post.branch && post.next_pc == a
            }),
            final(self).wf(),
            final(self).pc == old(self).pc,
            ({
                let op = instr >> 26u32;
                let a = old(self).regs()[((instr >> 21u32) & 0x1F) as int];
                let b = old(self).regs()[((instr >> 16u32) & 0x1F) as int];
                &&& op == 0x02 ==> final(self).branch && final(self).next_pc == jump_target(old(self).next_pc, instr)
                &&& op == 0x03 ==> final(self).branch && final(self).next_pc == jump_target(old(self).next_pc, instr)
                    && final(self).pending_writes@[0] == Some((31u32, old(self).next_pc))
                &&& op == 0x04 ==> (a == b ==> final(self).branch && final(self).next_pc == branch_target(old(self).next_pc, instr))
                    && (a != b ==> final(self).next_pc == old(self).next_pc && final(self).branch == old(self).branch)
                &&& op == 0x05 ==> (a != b ==> final(self).branch && final(self).next_pc == branch_target(old(self).next_pc, instr))
                    && (a == b ==> final(self).next_pc == old(self).next_pc && final(self).branch == old(self).branch)
                &&& op == 0x06 ==> ((a as i32) <= 0 ==> final(self).branch && final(self).next_pc == branch_target(old(self).next_pc, instr))
                &&& op == 0x07 ==> ((a as i32) > 0 ==> final(self).branch && final(self).next_pc == branch_target(old(self).next_pc, instr))
            }),
    {
        proof {
            lemma_fields(instr, 0);
        }
        let op = instr >> 26u32;
        let a = self.reg((instr >> 21u32) & 0x1F);
        let b = self.reg((instr >> 16u32) & 0x1F);
        let rel = self.next_pc.wrapping_add((instr as i16 as u32) << 2u32).wrapping_sub(4);
        if op == 0x02 || op == 0x03 {
            let t = (self.next_pc & 0xF000_0000) | ((instr & 0x03FF_FFFF) << 2u32);
            if op == 0x03 {
                let ret = self.next_pc;
                self.write_register(31, ret);
            }
            self.jump_to(t);
        } else if op == 0x04 {
            if a == b {
                self.jump_to(rel);
            }
        } else if op == 0x05 {
            if a != b {
                self.jump_to(rel);
            }
        } else if op == 0x06 {
            if (a as i32) <= 0 {
                self.jump_to(rel);
            }
        } else if op == 0x07 {
            if (a as i32) > 0 {
                self.jump_to(rel);
            }
        } else if op == 0x01 {
            let greater = (instr >> 16u32) & 1 != 0;
            let link = (instr >> 17u32) & 0xF == 8;
            let taken = ((a as i32) < 0) != greater;
            if link {
                let ret = self.next_pc;
                self.write_register(31, ret);
            }
            if taken {
                self.jump_to(rel);
            }
        } else {
            let f = instr & 0x3F;
            if f == 0x09 {
                let ret = self.next_pc;
                self.write_register((instr >> 11u32) & 0x1F, ret);
            }
            self.jump_to(a);
        }
    }
}

impl CPU {
    /// Executes one instruction word. ALU results wait in slot 0 and land
    /// after this instruction; a load's value waits in slot 1, so neither
    /// this instruction nor the next sees it in the register file.
    pub fn execute(&mut self, instr: u32) -> (r: Result<(), CpuError>)
        requires
            old(self).wf(),
        ensures
            ({
                let op = instr >> 26u32;
                let rs = (instr >> 21u32) & 0x1F;
                let rt = (instr >> 16u32) & 0x1F;
                let rd = (instr >> 11u32) & 0x1F;
                let b = old(self).regs()[rt as int];
                let cop2 = op == 0x12 && instr & 0x0200_0000 == 0;
                &&& op == 0x12 && instr & 0x0200_0000 != 0 ==> (r.is_ok() <==> crate::gte::known_command(instr & 0x3F))
                    && final(self).regs() == old(self).regs() && final(self).pending_writes == old(self).pending_writes
                    && final(self).pc == old(self).pc && final(self).next_pc == old(self).next_pc
                &&& op == 0x12 && instr & 0x0200_0000 != 0 && r.is_ok() ==> final(self).gte.regs() == crate::gte::command_effect(
                    old(self).gte.regs().update(63, 0), instr, old(self).gte.UNR_TABLE@).0
                &&& cop2 && rs == 0 ==> r.is_ok() && final(self).regs() == old(self).regs() && final(self).pending_writes@
                    == old(self).pending_writes@.update(1, Some((rt, crate::gte::data_read(old(self).gte.regs(), rd))))
                &&& cop2 && rs == 4 ==> r.is_ok() && final(self).regs() == old(self).regs() && final(self).gte.regs()
                    == crate::gte::data_written(old(self).gte.regs(), rd, b)
                &&& cop2 && rs == 6 ==> r.is_ok() && final(self).regs() == old(self).regs() && final(self).gte.regs()
                    == old(self).gte.regs().update(rd + 32, if rd + 32 == 58 { b as u16 as u32 } else if rd + 32 == 63 {
                        (old(self).gte.regs()[63] & 0x8000_0FFF) | (b & !0x8000_0FFFu32)
                    } else {
                        b
                    })
            }),
            execute_post(old(self)@, final(self)@, instr, r),
            final(self).current_pc == old(self).current_pc && final(self).delay_slot == old(self).delay_slot,
            final(self).pc == old(self).pc || is_vector(final(self).pc),
            final(self).wf(),
            ({
                let op = instr >> 26u32;
                let f = instr & 0x3F;
                let a = old(self).regs()[((instr >> 21u32) & 0x1F) as int];
                let b = old(self).regs()[((instr >> 16u32) & 0x1F) as int];
                &&& op == 0 && is_alu_r(f) ==> r.is_ok() && final(self).regs() == committed(old(self).regs(), old(self).pending_writes@[0])
                    && final(self).pending_writes@ == old(self).pending_writes@.update(0, Some(((instr >> 11u32) & 0x1F, alu_r(f, a, b, (instr >> 6u32) & 0x1F))))
                    && final(self).pc == old(self).pc && final(self).next_pc == old(self).next_pc
                &&& is_alu_i(op) ==> r.is_ok() && final(self).regs() == committed(old(self).regs(), old(self).pending_writes@[0])
                    && final(self).pending_writes@ == old(self).pending_writes@.update(0, Some(((instr >> 16u32) & 0x1F, alu_i(op, a, instr))))
                    && final(self).pc == old(self).pc && final(self).next_pc == old(self).next_pc
                &&& is_load(op) ==> final(self).regs() == old(self).regs()
                    && final(self).pending_writes@[0] == old(self).pending_writes@[0]
                &&& is_load(op) && load_aligned(op, load_addr(old(self).regs(), instr)) && physical(load_addr(old(self).regs(), instr)) < 0x0080_0000
                    ==> r.is_ok() && final(self).pending_writes@[1] == Some(((instr >> 16u32) & 0x1F,
                    ram_load(old(self).bus.dram.data@, op, load_addr(old(self).regs(), instr))))
                &&& op == 0 && 0x18 <= f <= 0x1B ==> r.is_ok() && final(self).regs() == old(self).regs()
                &&& op == 0 && f == 0x1A ==> (final(self).hi, final(self).lo) == div_result(a, b)
                &&& op == 0 && f == 0x1B ==> (final(self).hi, final(self).lo) == divu_result(a, b)
            }),
    {
        proof {
            lemma_fields(instr, 0);
        }
        let op = instr >> 26u32;
        if op == 0 {
            let f = instr & 0x3F;
            let rs = (instr >> 21u32) & 0x1F;
            let rt = (instr >> 16u32) & 0x1F;
            let rd = (instr >> 11u32) & 0x1F;
            if f == 0x00 || f == 0x02 || f == 0x03 || f == 0x04 || f == 0x06 || f == 0x07 || f == 0x21
                || f == 0x23 || f == 0x24 || f == 0x25 || f == 0x26 || f == 0x27 || f == 0x2A || f
                == 0x2B {
                self.alu_register(instr);
            } else if f == 0x20 || f == 0x22 {
                let a = self.reg(rs);
                let b = self.reg(rt);
                self.add_trapping(rd, a, b, f == 0x22);
            } else if f == 0x0C {
                self.raise_exception(Cause::Sys);
            } else if f == 0x0D {
                self.raise_exception(Cause::Bp);
            } else if f == 0x08 || f == 0x09 {
                self.control_transfer(instr);
            } else if f == 0x10 {
                let v = self.hi;
                self.write_register(rd, v);
            } else if f == 0x11 {
                self.hi = self.reg(rs);
            } else if f == 0x12 {
                let v = self.lo;
                self.write_register(rd, v);
            } else if f == 0x13 {
                self.lo = self.reg(rs);
            } else if 0x18 <= f && f <= 0x1B {
                self.multiply_divide(instr);
            } else {
                self.raise_exception(Cause::RI);
            }
            Ok(())
        } else if 1 <= op && op <= 7 {
            self.control_transfer(instr);
            Ok(())
        } else if op == 0x08 {
            let a = self.reg((instr >> 21u32) & 0x1F);
            self.add_trapping((instr >> 16u32) & 0x1F, a, instr as i16 as u32, false);
            Ok(())
        } else if 0x09 <= op && op <= 0x0F {
            self.alu_immediate(instr);
            Ok(())
        } else if op == 0x10 || op == 0x12 {
            self.coprocessor(instr)
        } else if op == 0x11 || op == 0x13 || op == 0x30 || op == 0x31 || op == 0x33 || op == 0x38
            || op == 0x39 || op == 0x3B {
            self.raise_exception(Cause::CpU);
            Ok(())
        } else if (0x20 <= op && op <= 0x26) || op == 0x28 || op == 0x29 || op == 0x2A || op == 0x2B
            || op == 0x2E || op == 0x32 || op == 0x3A {
            self.memory_access(instr)
        } else {
            self.raise_exception(Cause::RI);
            Ok(())
        }
    }

}

/// The state an instruction executes in: the PC pair moved one step, the
/// instruction's own address recorded, and the branch flag moved to the delay-slot flag.
pub open spec fn advanced(v: CpuView) -> CpuView {
    CpuView {
        pc: v.next_pc,
        next_pc: wadd(v.next_pc, 4),
        current_pc: v.pc,
        delay_slot: v.branch,
        branch: false,
        ..v
    }
}

/// The state after the oldest pending register write lands and the load
/// slot moves up.
pub open spec fn commit_view(v: CpuView) -> CpuView {
    CpuView { regs: committed(v.regs, v.pending[0]), pending: seq![v.pending[1], None], ..v }
}

/// The state an exception taken at this instruction boundary starts from.
pub open spec fn at_boundary(v: CpuView) -> CpuView {
    CpuView { current_pc: v.pc, delay_slot: v.branch, ..v }
}

/// Whether the PC can be fetched from main memory or the BIOS.
pub open spec fn fetchable(pc: u32) -> bool {
    pc & 3 == 0 && (physical(pc) < 0x0080_0000 || (0x1FC0_0000 <= physical(pc) < 0x1FC8_0000))
}

/// The instruction word at the PC, from main memory or the BIOS.
pub open spec fn fetched(c: &CPU) -> u32 {
    let a = physical(c.pc);
    if a < 0x0080_0000 {
        le32(c.bus.dram.data@, (a & 0x1F_FFFF) as int)
    } else {
        le32(c.bus.bios.bytes(), a - 0x1FC0_0000)
    }
}


impl CPU {
    /// One CPU cycle: stall while DMA runs; else fetch at PC, take a pending
    /// interrupt at this boundary, or advance the PC pair, execute, and land
    /// the oldest pending register write.
    pub fn tick(&mut self) -> (r: Result<(), CpuError>)
        requires
            old(self).wf(),
        ensures
            final(self).wf(),
            final(self).regs()[0] == 0,
            !final(self).branch ==> final(self).next_pc == wadd(final(self).pc, 4),
            r.is_ok() && !old(self).bus.dma.running ==> final(self).pc == old(self).next_pc
                || is_vector(final(self).pc),
            old(self).bus.dma.running ==> final(self).stalled && final(self).pc == old(self).pc
                && final(self).regs() == old(self).regs(),
            !old(self).bus.dma.running && old(self).pc & 3 != 0 ==> r.is_ok() && exception_view(at_boundary(old(self)@), final(self)@, 0x04),
            !old(self).bus.dma.running && fetchable(old(self).pc) && crate::system_control::interrupt_due(
                old(self)@.cop0[12],
                old(self)@.cop0[13],
            ) ==> r.is_ok() && exception_view(at_boundary(old(self)@), final(self)@, 0x00),
            !old(self).bus.dma.running && fetchable(old(self).pc) && !crate::system_control::interrupt_due(
                old(self)@.cop0[12],
                old(self)@.cop0[13],
            ) ==> exists|post: CpuView|
                #[trigger] execute_post(advanced(old(self)@), post, fetched(old(self)), r) && final(self)@ == commit_view(post),
            !old(self).bus.dma.running && old(self).pc & 3 == 0 && !is_mapped(physical(old(self).pc)) ==> r == Err::<(), CpuError>(
                CpuError::Bus(BusError::Unmapped(physical(old(self).pc))),
            ),
    {
        if self.bus.dma.running {
            self.stalled = true;
            return Ok(());
        }
        self.stalled = false;
        let pc = self.pc;
        self.current_pc = pc;
        self.delay_slot = self.branch;
        if pc & 3 != 0 {
            self.raise_exception(Cause::AdEL);
            return Ok(());
        }
        let instr = match self.bus.read32(pc) {
            Ok(w) => w,
            Err(e) => {
                return Err(CpuError::Bus(e));
            },
        };
        if self.bus.cop0.trigger_interrupt() {
            self.raise_exception(Cause::INT);
            return Ok(());
        }
        self.pc = self.next_pc;
        self.next_pc = self.next_pc.wrapping_add(4);
        self.branch = false;
        assert(self@ == advanced(old(self)@) || !fetchable(old(self).pc));
        let ghost pre = self@;
        let done = self.execute(instr);
        let ghost post = self@;
        self.commit_writes();
        assert(self@ =~= commit_view(post));
        proof {
            if fetchable(old(self).pc) {
                assert(instr == fetched(old(self)));
                assert(pre == advanced(old(self)@));
                assert(execute_post(advanced(old(self)@), post, fetched(old(self)), done));
            }
        }
        done
    }
}

/// The load delay slot. A load to `r` leaves `(r, v)` in slot 0 at the end of
/// its cycle, and the register file then is `committed(regs, p0)`, whatever
/// `v` is: the next instruction reads the earlier value of `r`. By the end of
/// the next cycle `r` holds `v`, unless that instruction is an ALU write to
/// `r` (it lands after the load), in which case `r` holds its result.
pub proof fn lemma_load_delay(regs: Seq<u32>, p0: Option<(u32, u32)>, r: u32, v: u32, alu: Option<(u32, u32)>)
    requires
        regs.len() == 32,
        0 < r < 32,
        p0 matches Some(p) ==> p.0 < 32,
        alu matches Some(p) ==> p.0 < 32,
    ensures
        (p0 matches Some(p) ==> p.0 != r) ==> committed(regs, p0)[r as int] == regs[r as int],
        match alu {
            None => committed(committed(regs, p0), Some((r, v)))[r as int] == v,
            Some((d, x)) => committed(committed(committed(regs, p0), Some((r, v))), Some((d, x)))[r as int]
                == if d == r { x } else { v },
        },
{
}

} // verus!
