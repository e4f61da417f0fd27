//! The boot ROM image.
use vstd::prelude::*;

use crate::bytes::{le32, load32, load8};

verus! {

/// Size of the boot ROM in bytes.
pub const BIOS_SIZE: usize = 512 * 1024;

#[derive(Debug, PartialEq, Eq, Clone, Copy)]
pub enum BiosError {
    /// The image is not exactly 512 KiB long.
    InvalidSize,
}

pub struct BIOS {
    data: Vec<u8>,
}

impl BIOS {
    pub closed spec fn bytes(&self) -> Seq<u8> {
        self.data@
    }

    pub open spec fn wf(&self) -> bool {
        self.bytes().len() == BIOS_SIZE
    }

    /// Takes a ROM image; any length other than 512 KiB is refused.
    pub fn new(data: Vec<u8>) -> (r: Result<BIOS, BiosError>)
        ensures
            data@.len() == BIOS_SIZE <==> r.is_ok(),
            r matches Ok(b) ==> b.bytes() == data@ && b.wf(),
            r matches Err(e) ==> e == BiosError::InvalidSize,
    {
        if data.len() != BIOS_SIZE {
            Err(BiosError::InvalidSize)
        } else {
            Ok(BIOS { data })
        }
    }

    pub fn read32(&self, offset: u32) -> (r: u32)
        requires
            offset + 4 <= self.bytes().len(),
        ensures
            r == le32(self.bytes(), offset as int),
    {
        load32(&self.data, offset as usize)
    }

    pub fn read8(&self, offset: u32) -> (r: u8)
        requires
            offset < self.bytes().len(),
        ensures
            r == self.bytes()[offset as int],
    {
        load8(&self.data, offset as usize)
    }
}

} // verus!
