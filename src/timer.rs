//! Three 16-bit root counters with target and overflow interrupts.
use vstd::prelude::*;

use crate::interrupt::{irq_bit, Interrupt, IRQ};
use crate::system_control::SystemControl;

verus! {

/// One counter tick: the new count, whether an interrupt fires, and the new
/// one-shot enable.
pub open spec fn counter_step(counter: u32, mode: u32, target: u32, enabled: bool) -> (u32, bool, bool) {
    let raw = counter + 1;
    if raw == 0xFFFF {
        let fire = mode & 0x20 != 0 && enabled;
        (0, fire, if fire { mode & 0x40 != 0 } else { enabled })
    } else if mode & 0x08 != 0 && raw == target {
        let fire = mode & 0x10 != 0 && enabled;
        (0, fire, if fire { mode & 0x40 != 0 } else { enabled })
    } else {
        ((raw % 0x10000) as u32, false, enabled)
    }
}

/// The interrupt line of timer `i`.
pub open spec fn timer_irq(i: int) -> IRQ {
    if i == 0 {
        IRQ::TMR0
    } else if i == 1 {
        IRQ::TMR1
    } else {
        IRQ::TMR2
    }
}

/// Whether timer 2 counts on this tick, given its mode and the divider state.
pub open spec fn counter_2_counts(mode: u32, sysclock_8: usize) -> bool {
    mode & 0x200 == 0 || sysclock_8 == 0
}

proof fn lemma_or_keeps(x: u32, b: u32)
    by (bit_vector)
    ensures
        x & !(x | b) == 0,
        x & !x == 0,
{
}

/// Register offsets are word aligned, and written values keep 16 bits.
proof fn lemma_timer_bits(offset: u32, value: u32)
    by (bit_vector)
    ensures
        offset & 3 == 0 ==> (offset & 0xF == 0 || offset & 0xF == 4 || offset & 0xF == 8 || offset
            & 0xF == 0xC),
        value & 0xFFFF <= 0xFFFF,
        0u32 & 1 == 0,
{
}

pub struct Timer {
    pub counter: [u32; 3],
    pub mode: [u32; 3],
    pub target: [u32; 3],
    pub irq_enabled: [bool; 3],
    pub sysclock_8: usize,
}

impl Timer {
    /// Counters stay within 16 bits and the divider within 8.
    pub open spec fn wf(&self) -> bool {
        &&& forall|i: int| 0 <= i < 3 ==> self.counter@[i] <= 0xFFFF
        &&& self.sysclock_8 <= 8
    }

    /// Sync modes are not modelled.
    pub open spec fn free_running(&self) -> bool {
        forall|i: int| 0 <= i < 3 ==> self.mode@[i] & 1 == 0
    }

    pub fn new() -> (r: Timer)
        ensures
            r.wf(),
            r.free_running(),
            r.counter@ == seq![0u32, 0, 0],
            r.mode@ == seq![0u32, 0, 0],
            r.target@ == seq![0u32, 0, 0],
            r.irq_enabled@ == seq![true, true, true],
            r.sysclock_8 == 0,
    {
        let r = Timer {
            counter: [0; 3],
            mode: [0; 3],
            target: [0; 3],
            irq_enabled: [true; 3],
            sysclock_8: 0,
        };
        assert(r.counter@ =~= seq![0u32, 0, 0]);
        assert(r.mode@ =~= seq![0u32, 0, 0]);
        assert(r.target@ =~= seq![0u32, 0, 0]);
        assert(r.irq_enabled@ =~= seq![true, true, true]);
        proof {
            lemma_timer_bits(0, 0);
        }
        r
    }

    fn step(counter: u32, mode: u32, target: u32, enabled: bool) -> (r: (u32, bool, bool))
        requires
            counter <= 0xFFFF,
        ensures
            r == counter_step(counter, mode, target, enabled),
            r.0 <= 0xFFFF,
    {
        let raw = counter + 1;
        if raw == 0xFFFF {
            let fire = mode & 0x20 != 0 && enabled;
            (0, fire, if fire { mode & 0x40 != 0 } else { enabled })
        } else if mode & 0x08 != 0 && raw == target {
            let fire = mode & 0x10 != 0 && enabled;
            (0, fire, if fire { mode & 0x40 != 0 } else { enabled })
        } else {
            (raw % 0x10000, false, enabled)
        }
    }

    fn tick_counter(&mut self, i: usize, interrupt: &mut Interrupt, cop0: &mut SystemControl)
        requires
            i < 3,
            old(self).wf(),
        ensures
            final(self).wf(),
            ({
                let s = counter_step(
                    old(self).counter@[i as int],
                    old(self).mode@[i as int],
                    old(self).target@[i as int],
                    old(self).irq_enabled@[i as int],
                );
                &&& final(self).counter@ == old(self).counter@.update(i as int, s.0)
                &&& final(self).irq_enabled@ == old(self).irq_enabled@.update(i as int, s.2)
                &&& final(interrupt).I_STAT == (if s.1 {
                    old(interrupt).I_STAT | irq_bit(timer_irq(i as int))
                } else {
                    old(interrupt).I_STAT
                })
            }),
            final(self).mode == old(self).mode,
            final(self).target == old(self).target,
            final(self).sysclock_8 == old(self).sysclock_8,
            final(interrupt).I_MASK == old(interrupt).I_MASK,
    {
        let s = Timer::step(self.counter[i], self.mode[i], self.target[i], self.irq_enabled[i]);
        self.counter[i] = s.0;
        self.irq_enabled[i] = s.2;
        if s.1 {
            let irq = if i == 0 {
                IRQ::TMR0
            } else if i == 1 {
                IRQ::TMR1
            } else {
                IRQ::TMR2
            };
            interrupt.request(irq, cop0);
        }
    }

    pub fn tick_counter_0(&mut self, interrupt: &mut Interrupt, cop0: &mut SystemControl)
        requires
            old(self).wf(),
            old(self).mode@[0] & 1 == 0,
        ensures
            final(self).wf(),
            ({
                let s = counter_step(
                    old(self).counter@[0],
                    old(self).mode@[0],
                    old(self).target@[0],
                    old(self).irq_enabled@[0],
                );
                &&& final(self).counter@ == old(self).counter@.update(0, s.0)
                &&& final(self).irq_enabled@ == old(self).irq_enabled@.update(0, s.2)
                &&& final(interrupt).I_STAT == (if s.1 {
                    old(interrupt).I_STAT | irq_bit(IRQ::TMR0)
                } else {
                    old(interrupt).I_STAT
                })
            }),
            final(self).mode == old(self).mode,
            final(self).target == old(self).target,
            final(self).sysclock_8 == old(self).sysclock_8,
            final(interrupt).I_MASK == old(interrupt).I_MASK,
    {
        self.tick_counter(0, interrupt, cop0);
    }

    pub fn tick_counter_1(&mut self, interrupt: &mut Interrupt, cop0: &mut SystemControl)
        requires
            old(self).wf(),
            old(self).mode@[1] & 1 == 0,
        ensures
            final(self).wf(),
            ({
                let s = counter_step(
                    old(self).counter@[1],
                    old(self).mode@[1],
                    old(self).target@[1],
                    old(self).irq_enabled@[1],
                );
                &&& final(self).counter@ == old(self).counter@.update(1, s.0)
                &&& final(self).irq_enabled@ == old(self).irq_enabled@.update(1, s.2)
                &&& final(interrupt).I_STAT == (if s.1 {
                    old(interrupt).I_STAT | irq_bit(IRQ::TMR1)
                } else {
                    old(interrupt).I_STAT
                })
            }),
            final(self).mode == old(self).mode,
            final(self).target == old(self).target,
            final(self).sysclock_8 == old(self).sysclock_8,
            final(interrupt).I_MASK == old(interrupt).I_MASK,
    {
        self.tick_counter(1, interrupt, cop0);
    }

    /// Timer 2 counts every tick, or every eighth tick when its clock source
    /// bit is set.
    pub fn tick_counter_2(&mut self, interrupt: &mut Interrupt, cop0: &mut SystemControl)
        requires
            old(self).wf(),
            old(self).mode@[2] & 1 == 0,
        ensures
            final(self).wf(),
            final(self).mode == old(self).mode,
            final(self).target == old(self).target,
            final(interrupt).I_MASK == old(interrupt).I_MASK,
            counter_2_counts(old(self).mode@[2], old(self).sysclock_8) ==> {
                let s = counter_step(
                    old(self).counter@[2],
                    old(self).mode@[2],
                    old(self).target@[2],
                    old(self).irq_enabled@[2],
                );
                &&& final(self).sysclock_8 == 8
                &&& final(self).counter@ == old(self).counter@.update(2, s.0)
                &&& final(self).irq_enabled@ == old(self).irq_enabled@.update(2, s.2)
                &&& final(interrupt).I_STAT == (if s.1 {
                    old(interrupt).I_STAT | irq_bit(IRQ::TMR2)
                } else {
                    old(interrupt).I_STAT
                })
            },
            !counter_2_counts(old(self).mode@[2], old(self).sysclock_8) ==> {
                &&& final(self).sysclock_8 == old(self).sysclock_8 - 1
                &&& final(self).counter == old(self).counter
                &&& final(self).irq_enabled == old(self).irq_enabled
                &&& final(interrupt).I_STAT == old(interrupt).I_STAT
            },
    {
        if self.mode[2] & 0x200 == 0 || self.sysclock_8 == 0 {
            self.sysclock_8 = 8;
            self.tick_counter(2, interrupt, cop0);
        } else {
            self.sysclock_8 = self.sysclock_8 - 1;
        }
    }

    pub fn tick(&mut self, interrupt: &mut Interrupt, cop0: &mut SystemControl)
        requires
            old(self).wf(),
            old(self).free_running(),
        ensures
            final(self).wf(),
            final(self).free_running(),
            final(self).mode == old(self).mode,
            final(self).target == old(self).target,
            final(interrupt).I_MASK == old(interrupt).I_MASK,
            final(self).counter@[0] == counter_step(
                old(self).counter@[0],
                old(self).mode@[0],
                old(self).target@[0],
                old(self).irq_enabled@[0],
            ).0,
            final(self).counter@[1] == counter_step(
                old(self).counter@[1],
                old(self).mode@[1],
                old(self).target@[1],
                old(self).irq_enabled@[1],
            ).0,
            counter_2_counts(old(self).mode@[2], old(self).sysclock_8) ==> final(self).counter@[2]
                == counter_step(
                old(self).counter@[2],
                old(self).mode@[2],
                old(self).target@[2],
                old(self).irq_enabled@[2],
            ).0,
            !counter_2_counts(old(self).mode@[2], old(self).sysclock_8) ==> final(self).counter@[2]
                == old(self).counter@[2],
            old(interrupt).I_STAT & !final(interrupt).I_STAT == 0,
    {
        let ghost s0 = interrupt.I_STAT;
        self.tick_counter_0(interrupt, cop0);
        let ghost s1 = interrupt.I_STAT;
        self.tick_counter_1(interrupt, cop0);
        let ghost s2 = interrupt.I_STAT;
        self.tick_counter_2(interrupt, cop0);
        let ghost s3 = interrupt.I_STAT;
        proof {
            lemma_or_keeps(s0, irq_bit(IRQ::TMR0));
            lemma_or_keeps(s1, irq_bit(IRQ::TMR1));
            lemma_or_keeps(s2, irq_bit(IRQ::TMR2));
        }
        assert(s0 & !s3 == 0) by (bit_vector)
            requires
                s0 & !s1 == 0,
                s1 & !s2 == 0,
                s2 & !s3 == 0,
        ;
    }
    pub fn read32(&mut self, offset: u32) -> (r: u32)
        requires
            (offset & 0x30) >> 4u32 < 3,
            offset & 3 == 0,
        ensures
            old(self).wf() ==> final(self).wf(),
            ({
                let i = ((offset & 0x30) >> 4u32) as int;
                &&& offset & 0xF == 0 ==> r == old(self).counter@[i] && *final(self) == *old(self)
                &&& offset & 0xF == 4 ==> r == old(self).mode@[i] && final(self).mode@
                    == old(self).mode@.update(i, old(self).mode@[i] & !0x1800u32)
                    && final(self).counter == old(self).counter && final(self).target == old(
                    self).target && final(self).irq_enabled == old(self).irq_enabled
                    && final(self).sysclock_8 == old(self).sysclock_8
                &&& offset & 0xF == 8 ==> r == old(self).target@[i] && *final(self) == *old(self)
                &&& offset & 0xF == 0xC ==> r == 0 && *final(self) == *old(self)
            }),
    {
        let i = ((offset & 0x30) >> 4u32) as usize;
        let reg = offset & 0xF;
        proof {
            lemma_timer_bits(offset, 0);
        }
        if reg == 0 {
            self.counter[i]
        } else if reg == 4 {
            let mode = self.mode[i];
            self.mode[i] = mode & !0x1800u32;
            mode
        } else if reg == 8 {
            self.target[i]
        } else {
            0
        }
    }

    pub fn read16(&mut self, offset: u32) -> (r: u16)
        requires
            offset >> 4u32 < 3,
            offset & 3 == 0,
        ensures
            old(self).wf() ==> final(self).wf(),
            ({
                let i = (offset >> 4u32) as int;
                &&& offset & 0xF == 0 ==> r == old(self).counter@[i] as u16 && *final(self)
                    == *old(self)
                &&& offset & 0xF == 4 ==> r == old(self).mode@[i] as u16 && final(self).mode@
                    == old(self).mode@.update(i, old(self).mode@[i] & !0x1800u32)
                    && final(self).counter == old(self).counter && final(self).target == old(
                    self).target && final(self).irq_enabled == old(self).irq_enabled
                    && final(self).sysclock_8 == old(self).sysclock_8
                &&& offset & 0xF == 8 ==> r == old(self).target@[i] as u16 && *final(self)
                    == *old(self)
                &&& offset & 0xF == 0xC ==> r == 0 && *final(self) == *old(self)
            }),
    {
        let i = (offset >> 4u32) as usize;
        let reg = offset & 0xF;
        proof {
            lemma_timer_bits(offset, 0);
        }
        if reg == 0 {
            self.counter[i] as u16
        } else if reg == 4 {
            let mode = self.mode[i];
            self.mode[i] = mode & !0x1800u32;
            mode as u16
        } else if reg == 8 {
            self.target[i] as u16
        } else {
            0
        }
    }

    pub fn write32(&mut self, offset: u32, value: u32)
        requires
            old(self).wf(),
            (offset & 0x30) >> 4u32 < 3,
            offset & 3 == 0,
        ensures
            final(self).wf(),
            final(self).sysclock_8 == old(self).sysclock_8,
            ({
                let i = ((offset & 0x30) >> 4u32) as int;
                &&& offset & 0xF == 0 ==> final(self).counter@ == old(self).counter@.update(
                    i,
                    value & 0xFFFF,
                ) && final(self).mode == old(self).mode && final(self).target == old(self).target
                    && final(self).irq_enabled == old(self).irq_enabled
                &&& offset & 0xF == 4 ==> final(self).counter@ == old(self).counter@.update(i, 0)
                    && final(self).mode@ == old(self).mode@.update(i, (value & 0x3FF) | 0x400)
                    && final(self).target == old(self).target && final(self).irq_enabled@ == seq![
                    true,
                    true,
                    true,
                ]
                &&& offset & 0xF == 8 ==> final(self).target@ == old(self).target@.update(
                    i,
                    value & 0xFFFF,
                ) && final(self).mode == old(self).mode && final(self).counter == old(
                    self).counter && final(self).irq_enabled == old(self).irq_enabled
                &&& offset & 0xF == 0xC ==> *final(self) == *old(self)
            }),
    {
        let i = ((offset & 0x30) >> 4u32) as usize;
        let reg = offset & 0xF;
        proof {
            lemma_timer_bits(offset, value);
        }
        if reg == 0 {
            self.counter[i] = value & 0xFFFF;
        } else if reg == 4 {
            self.irq_enabled = [true; 3];
            self.mode[i] = (value & 0x3FF) | 0x400;
            self.counter[i] = 0;
            assert(self.irq_enabled@ =~= seq![true, true, true]);
        } else if reg == 8 {
            self.target[i] = value & 0xFFFF;
        }
    }

    pub fn write16(&mut self, offset: u32, value: u16)
        requires
            old(self).wf(),
            (offset & 0x30) >> 4u32 < 3,
            offset & 3 == 0,
        ensures
            final(self).wf(),
            final(self).sysclock_8 == old(self).sysclock_8,
            ({
                let i = ((offset & 0x30) >> 4u32) as int;
                &&& offset & 0xF == 0 ==> final(self).counter@ == old(self).counter@.update(
                    i,
                    value as u32,
                ) && final(self).mode == old(self).mode && final(self).target == old(self).target
                    && final(self).irq_enabled == old(self).irq_enabled
                &&& offset & 0xF == 4 ==> final(self).counter@ == old(self).counter@.update(i, 0)
                    && final(self).mode@ == old(self).mode@.update(
                    i,
                    ((value as u32) & 0x3FF) | 0x400,
                ) && final(self).target == old(self).target && final(self).irq_enabled@ == seq![
                    true,
                    true,
                    true,
                ]
                &&& offset & 0xF == 8 ==> final(self).target@ == old(self).target@.update(
                    i,
                    value as u32,
                ) && final(self).mode == old(self).mode && final(self).counter == old(
                    self).counter && final(self).irq_enabled == old(self).irq_enabled
                &&& offset & 0xF == 0xC ==> *final(self) == *old(self)
            }),
    {
        let i = ((offset & 0x30) >> 4u32) as usize;
        let reg = offset & 0xF;
        proof {
            lemma_timer_bits(offset, 0);
        }
        if reg == 0 {
            self.counter[i] = value as u32;
        } else if reg == 4 {
            self.irq_enabled = [true; 3];
            self.mode[i] = ((value as u32) & 0x3FF) | 0x400;
            self.counter[i] = 0;
            assert(self.irq_enabled@ =~= seq![true, true, true]);
        } else if reg == 8 {
            self.target[i] = value as u32;
        }
    }
}

} // verus!
