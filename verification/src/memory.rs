//! The CPU's view of memory: byte reads and writes plus the little-endian
//! 16-bit helpers built on them.
//!
//! Besides the well-formedness `inv`, an implementation gives three spec
//! views: `read_of` is the byte a read returns, `reads_pure` marks addresses
//! whose reads have no side effect, and `ram_addr` marks plain work RAM,
//! where a write lands in the cell mirrored at 2 KiB and touches nothing
//! else. The CPU's own contracts (the fetched opcode, the reset vector, the
//! bytes an interrupt pushes) are stated over these views.

use vstd::prelude::*;
use vstd::wrapping::u16_specs;

verus! {

pub trait Memory: Sized {
    spec fn inv(&self) -> bool;

    /// The byte a read at this address returns, before the read's own side
    /// effects land.
    spec fn read_of(&self, addr: u16) -> u8;

    /// Whether a read at this address leaves the memory untouched.
    spec fn reads_pure(&self, addr: u16) -> bool;

    /// Whether this address is plain RAM, mirrored at 2 KiB.
    spec fn ram_addr(&self, addr: u16) -> bool;

    fn read(&mut self, addr: u16) -> (r: u8)
        requires
            old(self).inv(),
        ensures
            final(self).inv(),
            r == old(self).read_of(addr),
            old(self).reads_pure(addr) ==> *final(self) == *old(self),
    ;

    fn write(&mut self, addr: u16, data: u8)
        requires
            old(self).inv(),
        ensures
            final(self).inv(),
            old(self).ram_addr(addr) ==> {
                &&& forall|a: u16|
                    #[trigger] final(self).read_of(a) == if old(self).ram_addr(a) && a % 0x800
                        == addr % 0x800 {
                        data
                    } else {
                        old(self).read_of(a)
                    }
                &&& forall|a: u16| #[trigger] final(self).ram_addr(a) == old(self).ram_addr(a)
                &&& forall|a: u16| #[trigger] final(self).reads_pure(a) == old(self).reads_pure(a)
            },
    ;

    fn read_u16(&mut self, addr: u16) -> (r: u16)
        requires
            old(self).inv(),
        ensures
            final(self).inv(),
            old(self).reads_pure(addr) && old(self).reads_pure(
                u16_specs::wrapping_add(addr, 1),
            ) ==> {
                &&& *final(self) == *old(self)
                &&& r == old(self).read_of(addr) + 0x100 * old(self).read_of(
                    u16_specs::wrapping_add(addr, 1),
                )
            },
    {
        let lo = self.read(addr) as u16;
        let hi = self.read(addr.wrapping_add(1)) as u16;
        proof {
            assert((hi << 8u16) | lo == hi * 0x100 + lo) by (bit_vector)
                requires
                    lo < 0x100u16,
                    hi < 0x100u16,
            ;
        }
        (hi << 8u16) | lo
    }

    fn write_u16(&mut self, addr: u16, value: u16)
        requires
            old(self).inv(),
        ensures
            final(self).inv(),
    {
        let lo = (value & 0xFF) as u8;
        let hi = (value >> 8u16) as u8;
        self.write(addr, lo);
        self.write(addr.wrapping_add(1), hi);
    }
}

} // verus!
