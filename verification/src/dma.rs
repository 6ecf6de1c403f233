//! Memory that driver and device share.
use vstd::prelude::*;

verus! {

/// The size of a page in bytes.
pub const PAGE_SIZE: usize = 0x1000;

/// How many pages `size` bytes take.
pub open spec fn spec_pages(size: nat) -> nat {
    (size + PAGE_SIZE - 1) as nat / PAGE_SIZE as nat
}

/// How many pages `size` bytes take.
pub fn pages(size: usize) -> (n: usize)
    ensures
        n == spec_pages(size as nat),
{
    size / PAGE_SIZE + if size % PAGE_SIZE == 0 {
        0
    } else {
        1
    }
}

/// Whole pages hold what they were asked for, with less than a page to spare.
pub proof fn pages_suffice(size: nat)
    ensures
        size <= spec_pages(size) * PAGE_SIZE < size + PAGE_SIZE,
{
}

/// In which direction data moves through a shared buffer.
#[derive(Clone, Copy, Debug, PartialEq, Eq, Structural)]
pub enum BufferDirection {
    /// The driver writes, the device reads.
    DriverToDevice,
    /// The device writes, the driver reads.
    DeviceToDriver,
    /// Both write and read.
    Both,
}

/// Memory that the device can reach. Driver and device see the same memory at all times: what one
/// of them writes is there for the other. Dropping it gives the memory back.
pub trait DmaBuffer {
    /// The physical address at which the device finds the memory.
    spec fn address(&self) -> u64;

    /// What the memory holds.
    spec fn contents(&self) -> Seq<u8>;

    /// The physical address at which the device finds the memory.
    fn paddr(&self) -> (paddr: u64)
        ensures
            paddr == self.address(),
    ;

    /// The memory itself. What is left in it is what the memory then holds.
    fn raw_slice(&mut self) -> (bytes: &mut [u8])
        ensures
            bytes@ == old(self).contents(),
            final(self).contents() == final(bytes)@,
            final(self).address() == old(self).address(),
    ;
}

} // verus!
