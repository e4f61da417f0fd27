//! A fixed-size file of 32-bit registers.
use vstd::prelude::*;

verus! {

#[derive(Debug, Clone, Copy)]
pub struct Registers<const N: usize> {
    pub R: [u32; N],
}

impl<const N: usize> Registers<N> {
    pub fn zeroed() -> (r: Registers<N>)
        ensures
            forall|i: int| 0 <= i < N ==> r.R@[i] == 0,
    {
        Registers { R: [0u32; N] }
    }

    pub fn get(&self, index: u32) -> (r: u32)
        requires
            index < N,
        ensures
            r == self.R@[index as int],
    {
        self.R[index as usize]
    }

    pub fn set(&mut self, index: u32, value: u32)
        requires
            index < N,
        ensures
            final(self).R@ == old(self).R@.update(index as int, value),
    {
        self.R[index as usize] = value;
    }
}

} // verus!
