//! Main memory: a zero-filled byte buffer with little-endian accessors.
use vstd::prelude::*;

use crate::bytes::{le16, le32, load16, load32, load8, put16, put32, store16, store32};

verus! {

pub struct RAM {
    pub data: Vec<u8>,
}

impl RAM {
    pub fn new(size: usize) -> (r: RAM)
        ensures
            r.data@ == Seq::new(size as nat, |i: int| 0u8),
    {
        let mut data: Vec<u8> = Vec::new();
        let mut k: usize = 0;
        while k < size
            invariant
                k <= size,
                data@ == Seq::new(k as nat, |i: int| 0u8),
            decreases size - k,
        {
            data.push(0u8);
            k = k + 1;
            assert(data@ =~= Seq::new(k as nat, |i: int| 0u8));
        }
        RAM { data }
    }

    pub fn read32(&self, offset: u32) -> (r: u32)
        requires
            offset + 4 <= self.data@.len(),
        ensures
            r == le32(self.data@, offset as int),
    {
        load32(&self.data, offset as usize)
    }

    pub fn read16(&self, offset: u32) -> (r: u16)
        requires
            offset + 2 <= self.data@.len(),
        ensures
            r == le16(self.data@, offset as int),
    {
        load16(&self.data, offset as usize)
    }

    pub fn read8(&self, offset: u32) -> (r: u8)
        requires
            offset < self.data@.len(),
        ensures
            r == self.data@[offset as int],
    {
        load8(&self.data, offset as usize)
    }

    pub fn write32(&mut self, offset: u32, value: u32)
        requires
            offset + 4 <= old(self).data@.len(),
        ensures
            final(self).data@ == store32(old(self).data@, offset as int, value),
    {
        put32(&mut self.data, offset as usize, value);
    }

    pub fn write16(&mut self, offset: u32, value: u16)
        requires
            offset + 2 <= old(self).data@.len(),
        ensures
            final(self).data@ == store16(old(self).data@, offset as int, value),
    {
        put16(&mut self.data, offset as usize, value);
    }

    pub fn write8(&mut self, offset: u32, value: u8)
        requires
            offset < old(self).data@.len(),
        ensures
            final(self).data@ == old(self).data@.update(offset as int, value),
    {
        self.data.set(offset as usize, value);
    }
}

} // verus!
