//! Field extraction from 32-bit instruction words, and exception codes.
use vstd::prelude::*;

verus! {

pub trait Instruction: Sized {
    spec fn op_spec(&self) -> Self;

    fn op(&self) -> (r: Self)
        ensures
            r == self.op_spec(),
    ;

    fn rs(&self) -> Self;

    fn rt(&self) -> Self;

    fn imm(&self) -> Self;

    fn target(&self) -> Self;

    fn rd(&self) -> Self;

    fn shamt(&self) -> Self;

    fn funct(&self) -> Self;

    fn imm_se(&self) -> Self;
}

impl Instruction for u32 {
    open spec fn op_spec(&self) -> u32 {
        (*self >> 26u32) & 0x3F
    }

    fn op(&self) -> (r: u32) {
        (*self >> 26u32) & 0x3F
    }

    fn rs(&self) -> (r: u32)
        ensures
            r == (*self >> 21u32) & 0x1F,
    {
        (*self >> 21u32) & 0x1F
    }

    fn rt(&self) -> (r: u32)
        ensures
            r == (*self >> 16u32) & 0x1F,
    {
        (*self >> 16u32) & 0x1F
    }

    fn imm(&self) -> (r: u32)
        ensures
            r == *self & 0xFFFF,
    {
        *self & 0xFFFF
    }

    fn target(&self) -> (r: u32)
        ensures
            r == *self & 0x03FF_FFFF,
    {
        *self & 0x03FF_FFFF
    }

    fn rd(&self) -> (r: u32)
        ensures
            r == (*self >> 11u32) & 0x1F,
    {
        (*self >> 11u32) & 0x1F
    }

    fn shamt(&self) -> (r: u32)
        ensures
            r == (*self >> 6u32) & 0x1F,
    {
        (*self >> 6u32) & 0x1F
    }

    fn funct(&self) -> (r: u32)
        ensures
            r == *self & 0x3F,
    {
        *self & 0x3F
    }

    fn imm_se(&self) -> (r: u32)
        ensures
            r == *self as i16 as u32,
    {
        *self as i16 as u32
    }
}

#[derive(Debug, PartialEq, Eq, Clone, Copy)]
pub enum Cause {
    INT,
    AdEL,
    AdES,
    IBE,
    DBE,
    Sys,
    Bp,
    RI,
    CpU,
    Ovf,
}

/// The exception code stored in CAUSE for each cause.
pub open spec fn cause_code(c: Cause) -> u32 {
    match c {
        Cause::INT => 0x00,
        Cause::AdEL => 0x04,
        Cause::AdES => 0x05,
        Cause::IBE => 0x06,
        Cause::DBE => 0x07,
        Cause::Sys => 0x08,
        Cause::Bp => 0x09,
        Cause::RI => 0x0A,
        Cause::CpU => 0x0B,
        Cause::Ovf => 0x0C,
    }
}

impl Cause {
    pub fn code(self) -> (r: u32)
        ensures
            r == cause_code(self),
    {
        match self {
            Cause::INT => 0x00,
            Cause::AdEL => 0x04,
            Cause::AdES => 0x05,
            Cause::IBE => 0x06,
            Cause::DBE => 0x07,
            Cause::Sys => 0x08,
            Cause::Bp => 0x09,
            Cause::RI => 0x0A,
            Cause::CpU => 0x0B,
            Cause::Ovf => 0x0C,
        }
    }
}

} // verus!
