//! Address decoding: the physical address behind a virtual one.
use vstd::prelude::*;

use crate::bios::BIOS;
use crate::bytes::{le16, le32};
use crate::cdrom::{CdRomError, CD_ROM};
use crate::dma::DMA;
use crate::gpu::{GpuError, GPU};
use crate::interrupt::Interrupt;
use crate::ram::RAM;
use crate::system_control::SystemControl;
use crate::timer::Timer;

verus! {

/// The mask for each 512 MiB region: KUSEG and KSEG2 pass through, KSEG0
/// drops the top bit, KSEG1 the top three.
pub open spec fn region_mask(region: u32) -> u32 {
    if region == 4 {
        0x7FFF_FFFF
    } else if region == 5 {
        0x1FFF_FFFF
    } else {
        0xFFFF_FFFF
    }
}

pub fn mask_region(addr: u32) -> (r: u32)
    ensures
        r == addr & region_mask(addr >> 29u32),
{
    let index = addr >> 29u32;
    let mask: u32 = if index == 4 {
        0x7FFF_FFFF
    } else if index == 5 {
        0x1FFF_FFFF
    } else {
        0xFFFF_FFFF
    };
    addr & mask
}

pub const DRAM_BYTES: usize = 2 * 1024 * 1024;

pub const SCRATCHPAD_BYTES: usize = 0x400;

/// The physical address behind `addr`.
pub open spec fn physical(addr: u32) -> u32 {
    addr & region_mask(addr >> 29u32)
}

/// Register windows that read as zero and ignore writes: memory control,
/// peripheral ports, the SPU and cache control.
pub open spec fn is_sink(a: u32) -> bool {
    (0x1F80_1000 <= a < 0x1F80_1024) || (0x1F80_1040 <= a < 0x1F80_1060) || (0x1F80_1060 <= a
        < 0x1F80_1064) || (0x1F80_1C00 <= a < 0x1F80_1D80) || (0x1F80_1D80 <= a < 0x1F80_1DC0) || (
    0x1F80_1DC0 <= a < 0x1F80_1E00) || (0xFFFE_0130 <= a)
}

#[derive(Debug, Clone, Copy, PartialEq, Eq, Structural)]
pub enum BusError {
    /// No device answers at this physical address.
    Unmapped(u32),
    /// A halfword or word access at an address not aligned to its size.
    Misaligned(u32),
    Gpu(GpuError),
    CdRom(CdRomError),
}

/// The devices on the system bus.
pub struct Interface {
    pub bios: BIOS,
    pub dram: RAM,
    pub scratchpad: RAM,
    pub gpu: GPU,
    pub cd_rom: CD_ROM,
    pub timer: Timer,
    pub interrupt: Interrupt,
    pub dma: DMA,
    pub cop0: SystemControl,
}

impl Interface {
    pub open spec fn wf(&self) -> bool {
        &&& self.bios.wf()
        &&& self.dram.data@.len() == DRAM_BYTES
        &&& self.scratchpad.data@.len() == SCRATCHPAD_BYTES
        &&& self.gpu.wf()
        &&& self.cd_rom.wf()
        &&& self.timer.wf()
        &&& self.dma.clock < 120
    }

    pub fn new(bios: BIOS, cd_rom: CD_ROM) -> (r: Interface)
        requires
            bios.wf(),
            cd_rom.wf(),
        ensures
            r.wf(),
    {
        Interface {
            bios,
            dram: RAM::new(DRAM_BYTES),
            scratchpad: RAM::new(SCRATCHPAD_BYTES),
            gpu: GPU::new(),
            cd_rom,
            timer: Timer::new(),
            interrupt: Interrupt::new(),
            dma: DMA::new(),
            cop0: SystemControl::new(),
        }
    }

    /// Reads a word. Main memory repeats every 2 MiB over its 8 MiB window.
    pub fn read32(&mut self, addr: u32) -> (r: Result<u32, BusError>)
        requires
            old(self).wf(),
        ensures
            final(self).wf(),
            ({
                let a = physical(addr);
                &&& addr & 3 != 0 ==> r == Err::<u32, BusError>(BusError::Misaligned(addr)) && *final(self) == *old(self)
                &&& addr & 3 == 0 && a < 0x0080_0000 ==> r == Ok::<u32, BusError>(le32(old(self).dram.data@, (a & 0x1F_FFFF) as int))
                    && *final(self) == *old(self)
                &&& addr & 3 == 0 && 0x1F80_0000 <= a < 0x1F80_0400 ==> r == Ok::<u32, BusError>(le32(old(self).scratchpad.data@, a - 0x1F80_0000))
                    && *final(self) == *old(self)
                &&& addr & 3 == 0 && 0x1FC0_0000 <= a < 0x1FC8_0000 ==> r == Ok::<u32, BusError>(le32(old(self).bios.bytes(), a - 0x1FC0_0000))
                    && *final(self) == *old(self)
                &&& addr & 3 == 0 && (is_sink(a) || (0x1F80_1800 <= a < 0x1F80_1804)) ==> r == Ok::<u32, BusError>(0)
                    && *final(self) == *old(self)
                &&& addr & 3 == 0 && a == 0x1F80_1070 ==> r == Ok::<u32, BusError>(old(self).interrupt.I_STAT)
                &&& addr & 3 == 0 && a == 0x1F80_1074 ==> r == Ok::<u32, BusError>(old(self).interrupt.I_MASK & 0x7FF)
                &&& addr & 3 == 0 && 0x1F80_1080 <= a < 0x1F80_1100 ==> r == Ok::<u32, BusError>(old(self).dma.channels.at((a - 0x1F80_1080) as u32))
                &&& addr & 3 == 0 && a == 0x1F80_1814 ==> r == Ok::<u32, BusError>((old(self).gpu.gpu_status & 0x7FFF_FFFF)
                    | (if old(self).gpu.even_odd_frame { 0 } else { 0x8000_0000u32 }))
                &&& r matches Err(e) ==> (addr & 3 != 0 && e == BusError::Misaligned(addr)) || (addr & 3 == 0 && e == BusError::Unmapped(a))
                &&& addr & 3 == 0 && !is_mapped(a) ==> r == Err::<u32, BusError>(BusError::Unmapped(a))
                &&& addr & 3 == 0 && (a < 0x0080_0000 || (0x1F80_0000 <= a < 0x1F80_0400) || (0x1FC0_0000 <= a < 0x1FC8_0000)
                    || is_sink(a) || (0x1F80_1800 <= a < 0x1F80_1804) || (0x1F80_1070 <= a < 0x1F80_1078) || (0x1F80_1080 <= a < 0x1F80_1130)
                    || (0x1F80_1810 <= a < 0x1F80_1818)) ==> r.is_ok()
            }),
    {
        if addr & 3 != 0 {
            return Err(BusError::Misaligned(addr));
        }
        let a = mask_region(addr);
        proof {
            lemma_aligned_offsets(addr, a);
        }
        if a < 0x0080_0000 {
            Ok(self.dram.read32(a & 0x1F_FFFF))
        } else if 0x1F80_0000 <= a && a < 0x1F80_0400 {
            Ok(self.scratchpad.read32(a - 0x1F80_0000))
        } else if 0x1FC0_0000 <= a && a < 0x1FC8_0000 {
            Ok(self.bios.read32(a - 0x1FC0_0000))
        } else if (0x1F80_1000 <= a && a < 0x1F80_1024) || (0x1F80_1040 <= a && a < 0x1F80_1060) || (
        0x1F80_1060 <= a && a < 0x1F80_1064) || (0x1F80_1C00 <= a && a < 0x1F80_1D80) || (0x1F80_1D80
            <= a && a < 0x1F80_1DC0) || (0x1F80_1DC0 <= a && a < 0x1F80_1E00) || 0xFFFE_0130 <= a || (
        0x1F80_1800 <= a && a < 0x1F80_1804) {
            Ok(0)
        } else if 0x1F80_1070 <= a && a < 0x1F80_1078 {
            if a == 0x1F80_1070 {
                Ok(self.interrupt.read_status32())
            } else {
                Ok(self.interrupt.read_mask32())
            }
        } else if 0x1F80_1080 <= a && a < 0x1F80_1100 {
            Ok(self.dma.read_register(a - 0x1F80_1080))
        } else if 0x1F80_1100 <= a && a < 0x1F80_1130 {
            Ok(self.timer.read32(a - 0x1F80_1100))
        } else if 0x1F80_1810 <= a && a < 0x1F80_1818 {
            if a == 0x1F80_1810 {
                Ok(self.gpu.read_gp0())
            } else {
                Ok(self.gpu.read_gp1())
            }
        } else {
            Err(BusError::Unmapped(a))
        }
    }
}

/// Offsets of aligned accesses within each device window.
proof fn lemma_aligned_offsets(addr: u32, a: u32)
    by (bit_vector)
    requires
        addr & 3 == 0,
        a == addr & region_mask(addr >> 29u32),
    ensures
        a & 3 == 0,
        a & 0x1F_FFFF <= 0x1F_FFFC,
        0x1F80_1070 <= a < 0x1F80_1078 ==> a == 0x1F80_1070 || a == 0x1F80_1074,
        0x1F80_1810 <= a < 0x1F80_1818 ==> a == 0x1F80_1810 || a == 0x1F80_1814,
        0x1F80_1080 <= a < 0x1F80_1100 ==> ((a - 0x1F80_1080) as u32) >> 4u32 < 8,
        0x1F80_1100 <= a < 0x1F80_1130 ==> (((a - 0x1F80_1100) as u32) & 0x30) >> 4u32 < 3 && ((a
            - 0x1F80_1100) as u32) & 3 == 0,
        0x1F80_0000 <= a < 0x1F80_0400 ==> a - 0x1F80_0000 + 4 <= 0x400,
        0x1FC0_0000 <= a < 0x1FC8_0000 ==> a - 0x1FC0_0000 + 4 <= 0x8_0000,
{
}

/// Whether a physical address belongs to a device that takes accesses of every width.
pub open spec fn is_mapped(a: u32) -> bool {
    a < 0x0080_0000 || (0x1F80_0000 <= a < 0x1F80_0400) || (0x1FC0_0000 <= a < 0x1FC8_0000)
        || is_sink(a) || (0x1F80_1800 <= a < 0x1F80_1804) || (0x1F80_1070 <= a < 0x1F80_1078) || (
    0x1F80_1080 <= a < 0x1F80_1130) || (0x1F80_1810 <= a < 0x1F80_1818) || (0x1F00_0000 <= a
        < 0x1F08_0000) || (0x1F80_2000 <= a < 0x1F80_2042)
}

impl Interface {
    /// Reads a halfword from memory; device registers read as zero.
    pub fn read16(&mut self, addr: u32) -> (r: Result<u16, BusError>)
        requires
            old(self).wf(),
        ensures
            final(self).wf(),
            *final(self) == *old(self),
            ({
                let a = physical(addr);
                &&& addr & 1 != 0 ==> r == Err::<u16, BusError>(BusError::Misaligned(addr))
                &&& addr & 1 == 0 && a < 0x0080_0000 ==> r == Ok::<u16, BusError>(le16(old(self).dram.data@, (a & 0x1F_FFFF) as int))
                &&& addr & 1 == 0 && 0x1F80_0000 <= a < 0x1F80_0400 ==> r == Ok::<u16, BusError>(le16(old(self).scratchpad.data@, a - 0x1F80_0000))
                &&& addr & 1 == 0 && a == 0x1F80_1070 ==> r == Ok::<u16, BusError>(old(self).interrupt.I_STAT as u16)
                &&& addr & 1 == 0 && a == 0x1F80_1074 ==> r == Ok::<u16, BusError>((old(self).interrupt.I_MASK as u16) & 0x7FF)
                &&& r.is_err() <==> (addr & 1 != 0 || !is_mapped(a))
                &&& r matches Err(e) ==> (addr & 1 != 0 && e == BusError::Misaligned(addr)) || (addr & 1 == 0 && e == BusError::Unmapped(a))
            }),
    {
        if addr & 1 != 0 {
            return Err(BusError::Misaligned(addr));
        }
        let a = mask_region(addr);
        proof {
            lemma_half_offsets(addr, a);
        }
        if a < 0x0080_0000 {
            Ok(self.dram.read16(a & 0x1F_FFFF))
        } else if 0x1F80_0000 <= a && a < 0x1F80_0400 {
            Ok(self.scratchpad.read16(a - 0x1F80_0000))
        } else if a == 0x1F80_1070 {
            Ok(self.interrupt.read_status16())
        } else if a == 0x1F80_1074 {
            Ok(self.interrupt.read_mask16())
        } else if (0x1FC0_0000 <= a && a < 0x1FC8_0000) || (0x1F80_1000 <= a && a < 0x1F80_1024) || (
        0x1F80_1040 <= a && a < 0x1F80_1060) || (0x1F80_1060 <= a && a < 0x1F80_1064) || (0x1F80_1C00
            <= a && a < 0x1F80_1D80) || (0x1F80_1D80 <= a && a < 0x1F80_1DC0) || (0x1F80_1DC0 <= a && a
            < 0x1F80_1E00) || 0xFFFE_0130 <= a || (0x1F80_1800 <= a && a < 0x1F80_1804) || (0x1F80_1070
            <= a && a < 0x1F80_1078) || (0x1F80_1080 <= a && a < 0x1F80_1130) || (0x1F80_1810 <= a && a
            < 0x1F80_1818) || (0x1F00_0000 <= a && a < 0x1F08_0000) || (0x1F80_2000 <= a && a
            < 0x1F80_2042) {
            Ok(0)
        } else {
            Err(BusError::Unmapped(a))
        }
    }

    /// Reads a byte: memory, BIOS and the CD-ROM ports; expansion 1 reads 0xFF;
    /// other device registers read as zero.
    pub fn read8(&mut self, addr: u32) -> (r: Result<u8, BusError>)
        requires
            old(self).wf(),
        ensures
            final(self).wf(),
            ({
                let a = physical(addr);
                &&& a < 0x0080_0000 ==> r == Ok::<u8, BusError>(old(self).dram.data@[(a & 0x1F_FFFF) as int]) && *final(self) == *old(self)
                &&& 0x1F80_0000 <= a < 0x1F80_0400 ==> r == Ok::<u8, BusError>(old(self).scratchpad.data@[a - 0x1F80_0000]) && *final(self) == *old(self)
                &&& 0x1FC0_0000 <= a < 0x1FC8_0000 ==> r == Ok::<u8, BusError>(old(self).bios.bytes()[a - 0x1FC0_0000]) && *final(self) == *old(self)
                &&& 0x1F00_0000 <= a < 0x1F08_0000 ==> r == Ok::<u8, BusError>(0xFF) && *final(self) == *old(self)
                &&& r.is_err() <==> !is_mapped(a)
                &&& r matches Err(e) ==> e == BusError::Unmapped(a)
            }),
    {
        let a = mask_region(addr);
        proof {
            lemma_byte_offsets(a);
        }
        if a < 0x0080_0000 {
            Ok(self.dram.read8(a & 0x1F_FFFF))
        } else if 0x1F80_0000 <= a && a < 0x1F80_0400 {
            Ok(self.scratchpad.read8(a - 0x1F80_0000))
        } else if 0x1FC0_0000 <= a && a < 0x1FC8_0000 {
            Ok(self.bios.read8(a - 0x1FC0_0000))
        } else if 0x1F00_0000 <= a && a < 0x1F08_0000 {
            Ok(0xFF)
        } else if 0x1F80_1800 <= a && a < 0x1F80_1804 {
            Ok(self.cd_rom.read8(a - 0x1F80_1800))
        } else if is_mapped_exec(a) {
            Ok(0)
        } else {
            Err(BusError::Unmapped(a))
        }
    }

    /// Writes a word. Writes to sinks and read-only windows are dropped; GP0
    /// takes every word, skipping primitives it does not draw.
    pub fn write32(&mut self, addr: u32, value: u32) -> (r: Result<(), BusError>)
        requires
            old(self).wf(),
        ensures
            final(self).wf(),
            ({
                let a = physical(addr);
                &&& addr & 3 != 0 ==> r == Err::<(), BusError>(BusError::Misaligned(addr)) && *final(self) == *old(self)
                &&& addr & 3 == 0 && a < 0x0080_0000 ==> r == Ok::<(), BusError>(()) && final(self).dram.data@ == crate::bytes::store32(old(self).dram.data@, (a & 0x1F_FFFF) as int, value)
                    && final(self).scratchpad == old(self).scratchpad
                &&& addr & 3 == 0 && 0x1F80_0000 <= a < 0x1F80_0400 ==> r == Ok::<(), BusError>(()) && final(self).scratchpad.data@ == crate::bytes::store32(old(self).scratchpad.data@, a - 0x1F80_0000, value)
                    && final(self).dram == old(self).dram
                &&& addr & 3 == 0 && a == 0x1F80_1070 ==> final(self).interrupt.I_STAT == old(self).interrupt.I_STAT & (value & 0x7FF)
                &&& addr & 3 == 0 && a == 0x1F80_1074 ==> final(self).interrupt.I_MASK == value & 0x7FF
                &&& addr & 3 == 0 && !is_mapped(a) ==> r == Err::<(), BusError>(BusError::Unmapped(a)) && *final(self) == *old(self)
                &&& addr & 3 == 0 && is_mapped(a) && a != 0x1F80_1814 ==> r.is_ok()
            }),
    {
        if addr & 3 != 0 {
            return Err(BusError::Misaligned(addr));
        }
        let a = mask_region(addr);
        proof {
            lemma_aligned_offsets(addr, a);
        }
        if a < 0x0080_0000 {
            self.dram.write32(a & 0x1F_FFFF, value);
        } else if 0x1F80_0000 <= a && a < 0x1F80_0400 {
            self.scratchpad.write32(a - 0x1F80_0000, value);
        } else if a == 0x1F80_1070 {
            self.interrupt.acknowledge32(value, &mut self.cop0);
        } else if a == 0x1F80_1074 {
            self.interrupt.write_mask32(value, &mut self.cop0);
        } else if 0x1F80_1080 <= a && a < 0x1F80_1100 {
            self.dma.write_register(a - 0x1F80_1080, value);
        } else if 0x1F80_1100 <= a && a < 0x1F80_1130 {
            self.timer.write32(a - 0x1F80_1100, value);
        } else if a == 0x1F80_1810 {
            // A primitive the GPU does not draw is consumed and skipped.
            let _ = self.gpu.write_gp0(value, &mut self.interrupt, &mut self.cop0);
        } else if a == 0x1F80_1814 {
            match self.gpu.write_gp1(value) {
                Ok(()) => {},
                Err(e) => {
                    return Err(BusError::Gpu(e));
                },
            }
        } else if !is_mapped_exec(a) {
            return Err(BusError::Unmapped(a));
        }
        Ok(())
    }

    /// Writes a halfword: memory, the interrupt registers and timers; other
    /// mapped windows drop it.
    pub fn write16(&mut self, addr: u32, value: u16) -> (r: Result<(), BusError>)
        requires
            old(self).wf(),
        ensures
            final(self).wf(),
            ({
                let a = physical(addr);
                &&& addr & 1 != 0 ==> r == Err::<(), BusError>(BusError::Misaligned(addr)) && *final(self) == *old(self)
                &&& addr & 1 == 0 && a < 0x0080_0000 ==> r == Ok::<(), BusError>(()) && final(self).dram.data@ == crate::bytes::store16(old(self).dram.data@, (a & 0x1F_FFFF) as int, value)
                &&& addr & 1 == 0 && 0x1F80_0000 <= a < 0x1F80_0400 ==> r == Ok::<(), BusError>(()) && final(self).scratchpad.data@ == crate::bytes::store16(old(self).scratchpad.data@, a - 0x1F80_0000, value)
                &&& addr & 1 == 0 && a == 0x1F80_1070 ==> final(self).interrupt.I_STAT == old(self).interrupt.I_STAT & ((value & 0x7FF) as u32)
                &&& r.is_err() <==> (addr & 1 != 0 || !is_mapped(a))
            }),
    {
        if addr & 1 != 0 {
            return Err(BusError::Misaligned(addr));
        }
        let a = mask_region(addr);
        proof {
            lemma_half_offsets(addr, a);
        }
        if a < 0x0080_0000 {
            self.dram.write16(a & 0x1F_FFFF, value);
        } else if 0x1F80_0000 <= a && a < 0x1F80_0400 {
            self.scratchpad.write16(a - 0x1F80_0000, value);
        } else if a == 0x1F80_1070 {
            self.interrupt.acknowledge16(value, &mut self.cop0);
        } else if a == 0x1F80_1074 {
            self.interrupt.write_mask16(value, &mut self.cop0);
        } else if 0x1F80_1100 <= a && a < 0x1F80_1130 && (a - 0x1F80_1100) & 3 == 0 {
            self.timer.write16(a - 0x1F80_1100, value);
        } else if !is_mapped_exec(a) {
            return Err(BusError::Unmapped(a));
        }
        Ok(())
    }

    /// Writes a byte: memory and the CD-ROM ports; other mapped windows drop it.
    pub fn write8(&mut self, addr: u32, value: u8) -> (r: Result<(), BusError>)
        requires
            old(self).wf(),
        ensures
            final(self).wf(),
            ({
                let a = physical(addr);
                &&& a < 0x0080_0000 ==> r == Ok::<(), BusError>(()) && final(self).dram.data@ == old(self).dram.data@.update((a & 0x1F_FFFF) as int, value)
                &&& 0x1F80_0000 <= a < 0x1F80_0400 ==> r == Ok::<(), BusError>(()) && final(self).scratchpad.data@ == old(self).scratchpad.data@.update(a - 0x1F80_0000, value)
                &&& !is_mapped(a) ==> r == Err::<(), BusError>(BusError::Unmapped(a)) && *final(self) == *old(self)
                &&& is_mapped(a) && !(0x1F80_1800 <= a < 0x1F80_1804) ==> r.is_ok()
            }),
    {
        let a = mask_region(addr);
        proof {
            lemma_byte_offsets(a);
        }
        if a < 0x0080_0000 {
            self.dram.write8(a & 0x1F_FFFF, value);
        } else if 0x1F80_0000 <= a && a < 0x1F80_0400 {
            self.scratchpad.write8(a - 0x1F80_0000, value);
        } else if 0x1F80_1800 <= a && a < 0x1F80_1804 {
            match self.cd_rom.write8(a - 0x1F80_1800, value) {
                Ok(()) => {},
                Err(e) => {
                    return Err(BusError::CdRom(e));
                },
            }
        } else if !is_mapped_exec(a) {
            return Err(BusError::Unmapped(a));
        }
        Ok(())
    }
}

fn is_mapped_exec(a: u32) -> (r: bool)
    ensures
        r == is_mapped(a),
{
    a < 0x0080_0000 || (0x1F80_0000 <= a && a < 0x1F80_0400) || (0x1FC0_0000 <= a && a < 0x1FC8_0000)
        || (0x1F80_1000 <= a && a < 0x1F80_1024) || (0x1F80_1040 <= a && a < 0x1F80_1060) || (0x1F80_1060
        <= a && a < 0x1F80_1064) || (0x1F80_1C00 <= a && a < 0x1F80_1D80) || (0x1F80_1D80 <= a && a
        < 0x1F80_1DC0) || (0x1F80_1DC0 <= a && a < 0x1F80_1E00) || 0xFFFE_0130 <= a || (0x1F80_1800 <= a
        && a < 0x1F80_1804) || (0x1F80_1070 <= a && a < 0x1F80_1078) || (0x1F80_1080 <= a && a
        < 0x1F80_1130) || (0x1F80_1810 <= a && a < 0x1F80_1818) || (0x1F00_0000 <= a && a < 0x1F08_0000)
        || (0x1F80_2000 <= a && a < 0x1F80_2042)
}

proof fn lemma_half_offsets(addr: u32, a: u32)
    by (bit_vector)
    requires
        addr & 1 == 0,
        a == addr & region_mask(addr >> 29u32),
    ensures
        a & 1 == 0,
        a & 0x1F_FFFF <= 0x1F_FFFE,
        0x1F80_0000 <= a < 0x1F80_0400 ==> a - 0x1F80_0000 + 2 <= 0x400,
        0x1F80_1100 <= a < 0x1F80_1130 ==> (((a - 0x1F80_1100) as u32) & 0x30) >> 4u32 < 3,
{
}

proof fn lemma_byte_offsets(a: u32)
    by (bit_vector)
    ensures
        a & 0x1F_FFFF <= 0x1F_FFFF,
        0x1F80_1800 <= a < 0x1F80_1804 ==> a - 0x1F80_1800 < 4,
{
}

} // verus!
