//! The audio processing unit, present only as an address-decoded stub so
//! that the memory map is complete: every read returns zero.

use vstd::prelude::*;

verus! {

/// The audio processing unit. In the real console this is part of the CPU
/// die; here it is a separate, silent stub.
#[derive(Debug, Clone, Copy, PartialEq, Eq, Structural)]
pub struct NesApu {}

impl NesApu {
    /// A fresh APU stub.
    pub fn new() -> (result: NesApu)
        ensures
            result == (NesApu {  }),
    {
        NesApu {  }
    }

    /// Every APU register reads as zero.
    pub fn read(&mut self, address: u16) -> (result: u8)
        ensures
            *final(self) == *old(self),
            result == 0,
    {
        let _ = address;
        0x00
    }

    /// APU writes are accepted and ignored.
    pub fn write(&mut self, address: u16, data: u8)
        ensures
            *final(self) == *old(self),
    {
        let _ = address;
        let _ = data;
    }
}

} // verus!
