//! Memory-mapped register accesses that the drivers ask for.
use vstd::prelude::*;

verus! {

/// A 32-bit store of `value` to the register at `addr`.
#[derive(Clone, Copy, Debug, PartialEq, Eq, Structural)]
pub struct RegWrite {
    pub addr: usize,
    pub value: u32,
}

/// An 8-bit store of `value` to the register at `addr`.
#[derive(Clone, Copy, Debug, PartialEq, Eq, Structural)]
pub struct ByteWrite {
    pub addr: usize,
    pub value: u8,
}

/// A busy wait on the 32-bit register at `addr`: it ends once the bits of
/// `mask` read as set (`until_set`) or as all clear (`!until_set`).
#[derive(Clone, Copy, Debug, PartialEq, Eq, Structural)]
pub struct RegPoll {
    pub addr: usize,
    pub mask: u32,
    pub until_set: bool,
}

pub open spec fn reg_write(addr: usize, value: u32) -> RegWrite {
    RegWrite { addr, value }
}

impl RegPoll {
    /// Whether the wait is over once the register reads `value`.
    pub open spec fn done(self, value: u32) -> bool {
        if self.until_set {
            value & self.mask != 0
        } else {
            value & self.mask == 0
        }
    }

    /// Whether the wait is over once the register reads `value`.
    pub fn is_done(&self, value: u32) -> (r: bool)
        ensures
            r == self.done(value),
    {
        if self.until_set {
            value & self.mask != 0
        } else {
            value & self.mask == 0
        }
    }
}

} // verus!
