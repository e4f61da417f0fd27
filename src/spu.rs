//! Sound processor registers, kept as plain storage.
use vstd::prelude::*;

use crate::bytes::{le16, le32, load16, load32, load8, put16, put32, store16, store32};

verus! {

pub struct SPU {
    pub voice: Vec<u8>,
    pub control: Vec<u8>,
    pub reverb: Vec<u8>,
}

fn zeroes(n: usize) -> (r: Vec<u8>)
    ensures
        r@ == Seq::new(n as nat, |i: int| 0u8),
{
    let mut v: Vec<u8> = Vec::new();
    let mut k: usize = 0;
    while k < n
        invariant
            k <= n,
            v@ == Seq::new(k as nat, |i: int| 0u8),
        decreases n - k,
    {
        v.push(0u8);
        k = k + 1;
        assert(v@ =~= Seq::new(k as nat, |i: int| 0u8));
    }
    v
}

impl SPU {
    pub open spec fn wf(&self) -> bool {
        &&& self.voice@.len() == 0x180
        &&& self.control@.len() == 0x40
        &&& self.reverb@.len() == 0x40
    }

    pub fn new() -> (r: SPU)
        ensures
            r.wf(),
            r.voice@ == Seq::new(0x180, |i: int| 0u8),
            r.control@ == Seq::new(0x40, |i: int| 0u8),
            r.reverb@ == Seq::new(0x40, |i: int| 0u8),
    {
        SPU { voice: zeroes(0x180), control: zeroes(0x40), reverb: zeroes(0x40) }
    }

    pub fn read_voice32(&mut self, addr: u32) -> (r: u32)
        requires
            addr + 4 <= old(self).voice@.len(),
        ensures
            r == le32(old(self).voice@, addr as int),
            *final(self) == *old(self),
    {
        load32(&self.voice, addr as usize)
    }

    pub fn write_voice32(&mut self, addr: u32, value: u32)
        requires
            addr + 4 <= old(self).voice@.len(),
        ensures
            final(self).voice@ == store32(old(self).voice@, addr as int, value),
            final(self).control == old(self).control,
            final(self).reverb == old(self).reverb,
    {
        put32(&mut self.voice, addr as usize, value);
    }

    pub fn read_voice16(&mut self, addr: u32) -> (r: u16)
        requires
            addr + 2 <= old(self).voice@.len(),
        ensures
            r == le16(old(self).voice@, addr as int),
            *final(self) == *old(self),
    {
        load16(&self.voice, addr as usize)
    }

    pub fn write_voice16(&mut self, addr: u32, value: u16)
        requires
            addr + 2 <= old(self).voice@.len(),
        ensures
            final(self).voice@ == store16(old(self).voice@, addr as int, value),
            final(self).control == old(self).control,
            final(self).reverb == old(self).reverb,
    {
        put16(&mut self.voice, addr as usize, value);
    }

    pub fn read_voice8(&mut self, addr: u32) -> (r: u8)
        requires
            addr < old(self).voice@.len(),
        ensures
            r == old(self).voice@[addr as int],
            *final(self) == *old(self),
    {
        load8(&self.voice, addr as usize)
    }

    pub fn write_voice8(&mut self, addr: u32, value: u8)
        requires
            addr < old(self).voice@.len(),
        ensures
            final(self).voice@ == old(self).voice@.update(addr as int, value),
            final(self).control == old(self).control,
            final(self).reverb == old(self).reverb,
    {
        self.voice.set(addr as usize, value);
    }

    pub fn read_control32(&mut self, addr: u32) -> (r: u32)
        requires
            addr + 4 <= old(self).control@.len(),
        ensures
            r == le32(old(self).control@, addr as int),
            *final(self) == *old(self),
    {
        load32(&self.control, addr as usize)
    }

    pub fn write_control32(&mut self, addr: u32, value: u32)
        requires
            addr + 4 <= old(self).control@.len(),
        ensures
            final(self).control@ == store32(old(self).control@, addr as int, value),
            final(self).voice == old(self).voice,
            final(self).reverb == old(self).reverb,
    {
        put32(&mut self.control, addr as usize, value);
    }

    pub fn read_control16(&mut self, addr: u32) -> (r: u16)
        requires
            addr + 2 <= old(self).control@.len(),
        ensures
            r == le16(old(self).control@, addr as int),
            *final(self) == *old(self),
    {
        load16(&self.control, addr as usize)
    }

    pub fn write_control16(&mut self, addr: u32, value: u16)
        requires
            addr + 2 <= old(self).control@.len(),
        ensures
            final(self).control@ == store16(old(self).control@, addr as int, value),
            final(self).voice == old(self).voice,
            final(self).reverb == old(self).reverb,
    {
        put16(&mut self.control, addr as usize, value);
    }

    pub fn read_control8(&mut self, addr: u32) -> (r: u8)
        requires
            addr < old(self).control@.len(),
        ensures
            r == old(self).control@[addr as int],
            *final(self) == *old(self),
    {
        load8(&self.control, addr as usize)
    }

    pub fn write_control8(&mut self, addr: u32, value: u8)
        requires
            addr < old(self).control@.len(),
        ensures
            final(self).control@ == old(self).control@.update(addr as int, value),
            final(self).voice == old(self).voice,
            final(self).reverb == old(self).reverb,
    {
        self.control.set(addr as usize, value);
    }

    pub fn read_reverb32(&mut self, addr: u32) -> (r: u32)
        requires
            addr + 4 <= old(self).reverb@.len(),
        ensures
            r == le32(old(self).reverb@, addr as int),
            *final(self) == *old(self),
    {
        load32(&self.reverb, addr as usize)
    }

    pub fn write_reverb32(&mut self, addr: u32, value: u32)
        requires
            addr + 4 <= old(self).reverb@.len(),
        ensures
            final(self).reverb@ == store32(old(self).reverb@, addr as int, value),
            final(self).voice == old(self).voice,
            final(self).control == old(self).control,
    {
        put32(&mut self.reverb, addr as usize, value);
    }

    pub fn read_reverb16(&mut self, addr: u32) -> (r: u16)
        requires
            addr + 2 <= old(self).reverb@.len(),
        ensures
            r == le16(old(self).reverb@, addr as int),
            *final(self) == *old(self),
    {
        load16(&self.reverb, addr as usize)
    }

    pub fn write_reverb16(&mut self, addr: u32, value: u16)
        requires
            addr + 2 <= old(self).reverb@.len(),
        ensures
            final(self).reverb@ == store16(old(self).reverb@, addr as int, value),
            final(self).voice == old(self).voice,
            final(self).control == old(self).control,
    {
        put16(&mut self.reverb, addr as usize, value);
    }

    pub fn read_reverb8(&mut self, addr: u32) -> (r: u8)
        requires
            addr < old(self).reverb@.len(),
        ensures
            r == old(self).reverb@[addr as int],
            *final(self) == *old(self),
    {
        load8(&self.reverb, addr as usize)
    }

    pub fn write_reverb8(&mut self, addr: u32, value: u8)
        requires
            addr < old(self).reverb@.len(),
        ensures
            final(self).reverb@ == old(self).reverb@.update(addr as int, value),
            final(self).voice == old(self).voice,
            final(self).control == old(self).control,
    {
        self.reverb.set(addr as usize, value);
    }
}

} // verus!
