//! System control coprocessor (cop0): status, cause and exception PC.
use vstd::prelude::*;

use crate::registers::Registers;

verus! {

/// Status register index.
pub const SR: u32 = 12;

/// Cause register index.
pub const CAUSE: u32 = 13;

/// Exception PC register index.
pub const EPC: u32 = 14;

/// The {IE, KU} pair at stage `k` of the status stack (0: current, 1: previous, 2: old).
pub open spec fn stage(sr: u32, k: u32) -> u32 {
    (sr >> (2 * k)) & 3
}

/// Status word after entering an exception: the mode stack is pushed and the
/// current pair cleared.
pub open spec fn raise_sr(sr: u32) -> u32 {
    (sr & !0x3Fu32) | (((sr & 0x3F) << 2u32) & 0x3F)
}

/// Status word after `rfe`: the mode stack is popped, the old pair is kept.
pub open spec fn rfe_sr(sr: u32) -> u32 {
    (sr & !0x3Fu32) | ((sr & 0x3F) >> 2u32) | (sr & 0x30)
}

/// Cause word for exception code `cause`, with the branch-delay bits set or cleared.
pub open spec fn exception_cause(cause: u32, delay_slot: bool) -> u32 {
    if delay_slot {
        (cause << 2u32) | 0xC000_0000
    } else {
        (cause << 2u32) & !0xC000_0000u32
    }
}

/// The faulting address reported in EPC: the branch when in a delay slot.
pub open spec fn exception_pc(current_pc: u32, delay_slot: bool) -> u32 {
    if delay_slot {
        vstd::wrapping::u32_specs::wrapping_sub(current_pc, 4)
    } else {
        current_pc
    }
}

pub open spec fn is_writable(register: u32) -> bool {
    register == 3 || register == 5 || register == 7 || register == 9 || register == 11
        || register == 12
}

/// The register file after `write_register(register, value)`.
pub open spec fn written(r: Seq<u32>, register: u32, value: u32) -> Seq<u32> {
    let base = r.update(15, 2);
    if is_writable(register) {
        base.update(register as int, value)
    } else if register == 13 {
        base.update(13, (base[13] & !0x300u32) | (value & 0x300))
    } else {
        base
    }
}

/// The register file after `raise_exception`.
pub open spec fn raised(
    r: Seq<u32>,
    cause: u32,
    current_pc: u32,
    next_pc: u32,
    delay_slot: bool,
) -> Seq<u32> {
    let with_tar = if delay_slot {
        r.update(6, next_pc)
    } else {
        r
    };
    with_tar.update(13, exception_cause(cause, delay_slot)).update(
        14,
        exception_pc(current_pc, delay_slot),
    ).update(12, raise_sr(r[12]))
}

/// The pending-interrupt test: interrupts enabled (SR.IEc) and a pending line
/// in CAUSE.IP (bits 8..15) unmasked by SR.IM (bits 8..15).
pub open spec fn interrupt_due(sr: u32, cause: u32) -> bool {
    (sr & 1) == 1 && (cause & sr & 0xFF00) != 0
}

#[derive(Debug)]
pub struct SystemControl {
    pub R: Registers<64>,
}

impl SystemControl {
    pub open spec fn regs(&self) -> Seq<u32> {
        self.R.R@
    }

    pub fn new() -> (r: SystemControl)
        ensures
            forall|i: int| 0 <= i < 64 ==> r.regs()[i] == 0,
    {
        SystemControl { R: Registers::zeroed() }
    }

    pub fn write_register(&mut self, register: u32, value: u32)
        requires
            register < 64,
        ensures
            final(self).regs() == written(old(self).regs(), register, value),
    {
        self.R.set(15, 2);
        if register == 3 || register == 5 || register == 7 || register == 9 || register == 11
            || register == 12 {
            self.R.set(register, value);
        } else if register == 13 {
            let cause = self.R.get(13);
            self.R.set(13, (cause & !0x300u32) | (value & 0x300));
        }
    }

    pub fn read_register(&self, register: u32) -> (r: u32)
        requires
            register < 64,
        ensures
            r == self.regs()[register as int],
    {
        self.R.get(register)
    }

    /// Enters an exception; returns whether the boot-exception vectors are selected.
    pub fn raise_exception(
        &mut self,
        cause: u32,
        current_pc: u32,
        next_pc: u32,
        delay_slot: bool,
    ) -> (handler: bool)
        ensures
            handler == (old(self).regs()[12] & 0x40_0000 != 0),
            final(self).regs() == raised(old(self).regs(), cause, current_pc, next_pc, delay_slot),
            final(self).regs()[14] == (if delay_slot {
                vstd::wrapping::u32_specs::wrapping_sub(current_pc, 4)
            } else {
                current_pc
            }),
            (final(self).regs()[13] & 0x8000_0000 != 0) == delay_slot,
            (final(self).regs()[13] >> 2u32) & 0x1F == cause & 0x1F,
    {
        let sr = self.R.get(12);
        let handler = sr & 0x40_0000 != 0;
        if delay_slot {
            self.R.set(6, next_pc);
            self.R.set(13, (cause << 2u32) | 0xC000_0000);
            self.R.set(14, current_pc.wrapping_sub(4));
        } else {
            self.R.set(13, (cause << 2u32) & !0xC000_0000u32);
            self.R.set(14, current_pc);
        }
        let mode = sr & 0x3F;
        self.R.set(12, (sr & !0x3Fu32) | ((mode << 2u32) & 0x3F));
        let c = cause;
        assert(((c << 2u32) | 0xC000_0000u32) & 0x8000_0000u32 != 0 && ((c << 2u32)
            & !0xC000_0000u32) & 0x8000_0000u32 == 0 && ((((c << 2u32) | 0xC000_0000u32) >> 2u32)
            & 0x1F) == c & 0x1F && ((((c << 2u32) & !0xC000_0000u32) >> 2u32) & 0x1F) == c & 0x1F)
            by (bit_vector);
        proof {
            assert(final(self).regs() =~= raised(old(self).regs(), cause, current_pc, next_pc, delay_slot));
        }
        handler
    }

    pub fn clear_interrupt(&mut self)
        ensures
            final(self).regs() == old(self).regs().update(13, old(self).regs()[13] & !0x400u32),
    {
        let cause = self.R.get(13);
        self.R.set(13, cause & !0x400u32);
    }

    pub fn request_interrupt(&mut self)
        ensures
            final(self).regs() == old(self).regs().update(13, old(self).regs()[13] | 0x400u32),
    {
        let cause = self.R.get(13);
        self.R.set(13, cause | 0x400u32);
    }

    pub fn trigger_interrupt(&self) -> (r: bool)
        ensures
            r == interrupt_due(self.regs()[12], self.regs()[13]),
    {
        let sr = self.R.get(12);
        (sr & 1) == 1 && (self.R.get(13) & sr & 0xFF00) != 0
    }

    pub fn rfe(&mut self)
        ensures
            final(self).regs() == old(self).regs().update(12, rfe_sr(old(self).regs()[12])),
    {
        let sr = self.R.get(12);
        let mode = sr & 0x3F;
        let old_pair = sr & 0x30;
        self.R.set(12, (sr & !0x3Fu32) | (mode >> 2u32) | old_pair);
    }
}

/// Entering an exception pushes the mode stack: the current pair becomes zero,
/// the previous pair takes the current one and the old pair the previous one;
/// `rfe` pops it: the current pair takes the previous one, the previous pair the
/// old one, and the old pair stays.
pub proof fn lemma_mode_stack(sr: u32)
    ensures
        stage(raise_sr(sr), 0) == 0,
        stage(raise_sr(sr), 1) == stage(sr, 0),
        stage(raise_sr(sr), 2) == stage(sr, 1),
        stage(rfe_sr(sr), 0) == stage(sr, 1),
        stage(rfe_sr(sr), 1) == stage(sr, 2),
        stage(rfe_sr(sr), 2) == stage(sr, 2),
        raise_sr(sr) & !0x3Fu32 == sr & !0x3Fu32,
        rfe_sr(sr) & !0x3Fu32 == sr & !0x3Fu32,
{
    assert((((((sr & !0x3Fu32) | (((sr & 0x3F) << 2u32) & 0x3F)) >> 0u32) & 3) == 0)
        && (((((sr & !0x3Fu32) | (((sr & 0x3F) << 2u32) & 0x3F)) >> 2u32) & 3) == (sr >> 0u32) & 3)
        && (((((sr & !0x3Fu32) | (((sr & 0x3F) << 2u32) & 0x3F)) >> 4u32) & 3) == (sr >> 2u32) & 3)
        && (((((sr & !0x3Fu32) | ((sr & 0x3F) >> 2u32) | (sr & 0x30)) >> 0u32) & 3) == (sr >> 2u32)
        & 3)
        && (((((sr & !0x3Fu32) | ((sr & 0x3F) >> 2u32) | (sr & 0x30)) >> 2u32) & 3) == (sr >> 4u32)
        & 3)
        && (((((sr & !0x3Fu32) | ((sr & 0x3F) >> 2u32) | (sr & 0x30)) >> 4u32) & 3) == (sr >> 4u32)
        & 3)
        && (((sr & !0x3Fu32) | (((sr & 0x3F) << 2u32) & 0x3F)) & !0x3Fu32 == sr & !0x3Fu32)
        && (((sr & !0x3Fu32) | ((sr & 0x3F) >> 2u32) | (sr & 0x30)) & !0x3Fu32 == sr & !0x3Fu32)) by (bit_vector);
}

/// Across nested exception entries and returns, up to two deep, the current
/// mode pair comes back; after a single entry and return the previous pair
/// comes back too.
pub proof fn lemma_mode_stack_nested(sr: u32)
    ensures
        stage(rfe_sr(raise_sr(sr)), 0) == stage(sr, 0),
        stage(rfe_sr(raise_sr(sr)), 1) == stage(sr, 1),
        stage(rfe_sr(rfe_sr(raise_sr(raise_sr(sr)))), 0) == stage(sr, 0),
        rfe_sr(rfe_sr(raise_sr(raise_sr(sr)))) & !0x3Fu32 == sr & !0x3Fu32,
{
    lemma_mode_stack(sr);
    lemma_mode_stack(raise_sr(sr));
    lemma_mode_stack(raise_sr(raise_sr(sr)));
    lemma_mode_stack(rfe_sr(raise_sr(sr)));
    lemma_mode_stack(rfe_sr(raise_sr(raise_sr(sr))));
}

/// `rfe` after an exception entry restores the current and previous pairs
/// (bits 3..0), keeps the pair the entry pushed into the old stage (so bits
/// 5..4 hold the previous pair from before the entry) and leaves the bits
/// above 5 as they were.
pub proof fn lemma_rfe_after_raise(sr: u32)
    ensures
        rfe_sr(raise_sr(sr)) & 0x0F == sr & 0x0F,
        rfe_sr(raise_sr(sr)) & !0x3Fu32 == sr & !0x3Fu32,
        rfe_sr(raise_sr(sr)) & 0x30 == (sr & 0x0C) << 2u32,
{
    assert((((sr & !0x3Fu32) | (((sr & 0x3F) << 2u32) & 0x3F)) & !0x3Fu32 | ((((sr & !0x3Fu32) | (((sr
        & 0x3F) << 2u32) & 0x3F)) & 0x3F) >> 2u32) | (((sr & !0x3Fu32) | (((sr & 0x3F) << 2u32)
        & 0x3F)) & 0x30)) & 0x0F == sr & 0x0F && (((sr & !0x3Fu32) | (((sr & 0x3F) << 2u32) & 0x3F))
        & !0x3Fu32 | ((((sr & !0x3Fu32) | (((sr & 0x3F) << 2u32) & 0x3F)) & 0x3F) >> 2u32) | (((sr
        & !0x3Fu32) | (((sr & 0x3F) << 2u32) & 0x3F)) & 0x30)) & !0x3Fu32 == sr & !0x3Fu32 && (((sr
        & !0x3Fu32) | (((sr & 0x3F) << 2u32) & 0x3F)) & !0x3Fu32 | ((((sr & !0x3Fu32) | (((sr & 0x3F)
        << 2u32) & 0x3F)) & 0x3F) >> 2u32) | (((sr & !0x3Fu32) | (((sr & 0x3F) << 2u32) & 0x3F))
        & 0x30)) & 0x30 == (sr & 0x0C) << 2u32) by (bit_vector);
}

/// `rfe` undoes the most recent exception entry on the low six status bits,
/// given that the old pair equals the previous pair (entry discards the old
/// pair, which `rfe` cannot bring back). The bits above six are untouched.
pub proof fn lemma_rfe_undoes_raise(sr: u32)
    requires
        stage(sr, 2) == stage(sr, 1),
    ensures
        rfe_sr(raise_sr(sr)) == sr,
{
    assert(((sr >> 4u32) & 3) == ((sr >> 2u32) & 3) ==> ((((sr & !0x3Fu32) | (((sr & 0x3F) << 2u32)
        & 0x3F)) & !0x3Fu32) | ((((sr & !0x3Fu32) | (((sr & 0x3F) << 2u32) & 0x3F)) & 0x3F) >> 2u32)
        | (((sr & !0x3Fu32) | (((sr & 0x3F) << 2u32) & 0x3F)) & 0x30)) == sr) by (bit_vector);
}

} // verus!
