//! PS-X EXE side-loading: the header fields and copying the payload into RAM.
use vstd::prelude::*;

use crate::bytes::{le32, load32};
use crate::cpu::CPU;

verus! {

/// The PC at which the BIOS has finished booting and an executable may be side-loaded.
pub const SIDELOAD_PC: u32 = 0x8003_0000;

/// Where the payload starts in the file.
pub const EXE_PAYLOAD: usize = 2048;

#[derive(Debug, Clone, Copy, PartialEq, Eq, Structural)]
pub struct ExeHeader {
    pub initial_pc: u32,
    pub initial_gp: u32,
    pub load_address: u32,
    pub size: u32,
    pub initial_sp: u32,
}

/// Whether the file starts with the "PS-X EXE" magic.
pub open spec fn has_magic(b: Seq<u8>) -> bool {
    b.len() >= 8 && b[0] == 0x50 && b[1] == 0x53 && b[2] == 0x2D && b[3] == 0x58 && b[4] == 0x20
        && b[5] == 0x45 && b[6] == 0x58 && b[7] == 0x45
}

impl ExeHeader {
    /// Reads the header: PC at 0x10, GP at 0x14, load address (21 bits) at
    /// 0x18, size at 0x1C, SP at 0x30. Refused without the magic or when the
    /// file is shorter than its header and payload.
    pub fn parse(b: &Vec<u8>) -> (r: Option<ExeHeader>)
        ensures
            r.is_some() <==> (b@.len() >= EXE_PAYLOAD && has_magic(b@) && le32(b@, 0x1C)
                <= b@.len() - EXE_PAYLOAD),
            r matches Some(h) ==> h == (ExeHeader {
                initial_pc: le32(b@, 0x10),
                initial_gp: le32(b@, 0x14),
                load_address: le32(b@, 0x18) & 0x001F_FFFF,
                size: le32(b@, 0x1C),
                initial_sp: le32(b@, 0x30),
            }),
    {
        if b.len() < EXE_PAYLOAD {
            return None;
        }
        if !(b[0] == 0x50 && b[1] == 0x53 && b[2] == 0x2D && b[3] == 0x58 && b[4] == 0x20 && b[5]
            == 0x45 && b[6] == 0x58 && b[7] == 0x45) {
            return None;
        }
        let size = load32(b, 0x1C);
        if size as usize > b.len() - EXE_PAYLOAD {
            return None;
        }
        Some(
            ExeHeader {
                initial_pc: load32(b, 0x10),
                initial_gp: load32(b, 0x14),
                load_address: load32(b, 0x18) & 0x001F_FFFF,
                size,
                initial_sp: load32(b, 0x30),
            },
        )
    }
}

impl CPU {
    /// Side-loads an executable once the BIOS reaches the shell: copies the
    /// payload into RAM at the load address (wrapping within 2 MiB), sets GP,
    /// SP and FP (when SP is given) and continues at the entry point.
    /// Returns whether it loaded.
    pub fn sideload_exe(&mut self, exe: &Vec<u8>) -> (loaded: bool)
        requires
            old(self).wf(),
        ensures
            final(self).wf(),
            loaded <==> (old(self).pc == SIDELOAD_PC && ExeHeader::parse_ok(exe@)),
            !loaded ==> final(self).regs() == old(self).regs() && final(self).pc == old(self).pc,
    {
        if self.pc != SIDELOAD_PC {
            return false;
        }
        let h = match ExeHeader::parse(exe) {
            Some(h) => h,
            None => {
                return false;
            },
        };
        let n = exe.len();
        let mut k: u32 = 0;
        while k < h.size
            invariant
                n == exe@.len(),
                self.wf(),
                h.size as int <= exe@.len() - EXE_PAYLOAD,
                k <= h.size,
                self.pc == old(self).pc,
                self.regs() == old(self).regs(),
            decreases h.size - k,
        {
            let byte = exe[EXE_PAYLOAD + k as usize];
            let at = h.load_address.wrapping_add(k) % 0x0020_0000;
            self.bus.dram.write8(at, byte);
            k = k + 1;
        }
        self.R.set(28, h.initial_gp);
        if h.initial_sp != 0 {
            self.R.set(29, h.initial_sp);
            self.R.set(30, h.initial_sp);
        }
        self.next_pc = h.initial_pc;
        self.branch = true;
        true
    }
}

impl ExeHeader {
    pub open spec fn parse_ok(b: Seq<u8>) -> bool {
        b.len() >= EXE_PAYLOAD && has_magic(b) && le32(b, 0x1C) <= b.len() - EXE_PAYLOAD
    }
}

} // verus!
