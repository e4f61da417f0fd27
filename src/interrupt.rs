//! Interrupt controller: latches IRQ lines, masks them, and drives cop0's IP bit.
use vstd::prelude::*;

use crate::system_control::SystemControl;

verus! {

#[derive(Debug, PartialEq, Eq, Clone, Copy)]
pub enum IRQ {
    VBLANK,
    GPU,
    CDROM,
    DMA,
    TMR0,
    TMR1,
    TMR2,
    BYTE_RECEIVED,
    SIO,
    SPU,
    LIGHTPEN,
}

/// The status bit of each interrupt line.
pub open spec fn irq_bit(irq: IRQ) -> u32 {
    match irq {
        IRQ::VBLANK => 0x001,
        IRQ::GPU => 0x002,
        IRQ::CDROM => 0x004,
        IRQ::DMA => 0x008,
        IRQ::TMR0 => 0x010,
        IRQ::TMR1 => 0x020,
        IRQ::TMR2 => 0x040,
        IRQ::BYTE_RECEIVED => 0x080,
        IRQ::SIO => 0x100,
        IRQ::SPU => 0x200,
        IRQ::LIGHTPEN => 0x400,
    }
}

impl IRQ {
    pub fn bit(self) -> (r: u32)
        ensures
            r == irq_bit(self),
    {
        match self {
            IRQ::VBLANK => 0x001,
            IRQ::GPU => 0x002,
            IRQ::CDROM => 0x004,
            IRQ::DMA => 0x008,
            IRQ::TMR0 => 0x010,
            IRQ::TMR1 => 0x020,
            IRQ::TMR2 => 0x040,
            IRQ::BYTE_RECEIVED => 0x080,
            IRQ::SIO => 0x100,
            IRQ::SPU => 0x200,
            IRQ::LIGHTPEN => 0x400,
        }
    }
}

/// cop0's cause word after the controller re-evaluates its output, given the
/// masked pending bits before (`old_irq`) and now (`irq`).
pub open spec fn cop0_cause_after(cause: u32, old_irq: u32, irq: u32) -> u32 {
    if irq == 0 {
        cause & !0x400u32
    } else if irq != old_irq {
        cause | 0x400u32
    } else {
        cause
    }
}

#[derive(Debug)]
pub struct Interrupt {
    pub I_STAT: u32,
    pub I_MASK: u32,
}

impl Interrupt {
    pub fn new() -> (r: Interrupt)
        ensures
            r.I_STAT == 0,
            r.I_MASK == 0,
    {
        Interrupt { I_STAT: 0, I_MASK: 0 }
    }

    pub fn read_status32(&self) -> (r: u32)
        ensures
            r == self.I_STAT,
    {
        self.I_STAT
    }

    pub fn read_status16(&self) -> (r: u16)
        ensures
            r == self.I_STAT as u16,
    {
        self.I_STAT as u16
    }

    pub fn read_mask32(&self) -> (r: u32)
        ensures
            r == self.I_MASK & 0x7FF,
    {
        self.I_MASK & 0x7FF
    }

    pub fn read_mask16(&self) -> (r: u16)
        ensures
            r == (self.I_MASK as u16) & 0x7FF,
    {
        self.I_MASK as u16 & 0x7FF
    }

    /// Writing the status register acknowledges: bits written as zero are
    /// cleared, and no bit is ever set.
    pub fn acknowledge32(&mut self, value: u32, cop0: &mut SystemControl)
        ensures
            final(self).I_STAT == old(self).I_STAT & (value & 0x7FF),
            final(self).I_MASK == old(self).I_MASK,
            final(self).I_STAT & !old(self).I_STAT == 0,
            final(cop0).regs() == old(cop0).regs().update(
                13,
                cop0_cause_after(
                    old(cop0).regs()[13],
                    old(self).I_MASK & old(self).I_STAT,
                    final(self).I_STAT & final(self).I_MASK & 0x7FF,
                ),
            ),
    {
        let old_irq = self.I_MASK & self.I_STAT;
        let old_stat = self.I_STAT;
        self.I_STAT = self.I_STAT & (value & 0x7FF);
        assert((old_stat & (value & 0x7FF)) & !old_stat == 0) by (bit_vector);
        self.set_cop0(old_irq, cop0);
    }

    /// The halfword form of `acknowledge32`.
    pub fn acknowledge16(&mut self, value: u16, cop0: &mut SystemControl)
        ensures
            final(self).I_STAT == old(self).I_STAT & ((value & 0x7FF) as u32),
            final(self).I_MASK == old(self).I_MASK,
            final(self).I_STAT & !old(self).I_STAT == 0,
            final(cop0).regs() == old(cop0).regs().update(
                13,
                cop0_cause_after(
                    old(cop0).regs()[13],
                    old(self).I_MASK & old(self).I_STAT,
                    final(self).I_STAT & final(self).I_MASK & 0x7FF,
                ),
            ),
    {
        let old_irq = self.I_MASK & self.I_STAT;
        let old_stat = self.I_STAT;
        let v = (value & 0x7FF) as u32;
        self.I_STAT = self.I_STAT & v;
        assert((old_stat & v) & !old_stat == 0) by (bit_vector);
        self.set_cop0(old_irq, cop0);
    }

    pub fn write_mask32(&mut self, value: u32, cop0: &mut SystemControl)
        ensures
            final(self).I_MASK == value & 0x7FF,
            final(self).I_STAT == old(self).I_STAT,
            final(cop0).regs() == old(cop0).regs().update(
                13,
                cop0_cause_after(
                    old(cop0).regs()[13],
                    old(self).I_MASK & old(self).I_STAT,
                    final(self).I_STAT & final(self).I_MASK & 0x7FF,
                ),
            ),
    {
        let old_irq = self.I_MASK & self.I_STAT;
        self.I_MASK = value & 0x7FF;
        self.set_cop0(old_irq, cop0);
    }

    pub fn write_mask16(&mut self, value: u16, cop0: &mut SystemControl)
        ensures
            final(self).I_MASK == value as u32,
            final(self).I_STAT == old(self).I_STAT,
            final(cop0).regs() == old(cop0).regs().update(
                13,
                cop0_cause_after(
                    old(cop0).regs()[13],
                    old(self).I_MASK & old(self).I_STAT,
                    final(self).I_STAT & final(self).I_MASK & 0x7FF,
                ),
            ),
    {
        let old_irq = self.I_MASK & self.I_STAT;
        self.I_MASK = value as u32;
        self.set_cop0(old_irq, cop0);
    }

    /// Latches `irq`; raises cop0's line when an unmasked bit is pending.
    pub fn request(&mut self, irq: IRQ, cop0: &mut SystemControl)
        ensures
            final(self).I_STAT == old(self).I_STAT | irq_bit(irq),
            final(self).I_MASK == old(self).I_MASK,
            final(cop0).regs() == (if (final(self).I_STAT & final(self).I_MASK) & 0x7FF != 0 {
                old(cop0).regs().update(13, old(cop0).regs()[13] | 0x400u32)
            } else {
                old(cop0).regs()
            }),
    {
        self.I_STAT = self.I_STAT | irq.bit();
        if (self.I_STAT & self.I_MASK) & 0x7FF != 0 {
            cop0.request_interrupt();
        }
    }

    fn set_cop0(&self, old_irq: u32, cop0: &mut SystemControl)
        ensures
            final(cop0).regs() == old(cop0).regs().update(
                13,
                cop0_cause_after(
                    old(cop0).regs()[13],
                    old_irq,
                    self.I_STAT & self.I_MASK & 0x7FF,
                ),
            ),
    {
        if self.I_STAT & self.I_MASK & 0x7FF == 0 {
            cop0.clear_interrupt();
        } else if self.I_STAT & self.I_MASK & 0x7FF != old_irq {
            cop0.request_interrupt();
        } else {
            assert(old(cop0).regs() =~= old(cop0).regs().update(13, old(cop0).regs()[13]));
        }
    }
}

} // verus!
