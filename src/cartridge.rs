pub mod info;

use vstd::prelude::*;

verus! {

/// An offset into the ROM image as it was loaded from its file.
#[derive(Copy, Clone, Debug, PartialEq, Eq, Structural)]
pub struct CartAddr(pub usize);

/// A half-open range `[start, end)` of ROM file offsets.
#[derive(Copy, Clone, Debug, PartialEq, Eq, Structural)]
pub struct CartAddrRange(pub CartAddr, pub CartAddr);

/// The raw bytes of a cartridge ROM, fixed once loaded.
pub struct Cartridge {
    raw_data: Vec<u8>,
}

impl View for Cartridge {
    type V = Seq<u8>;

    closed spec fn view(&self) -> Seq<u8> {
        self.raw_data@
    }
}

impl Cartridge {
    /// A cartridge holding exactly the given ROM image.
    pub fn from_bytes(raw_data: Vec<u8>) -> (r: Cartridge)
        ensures
            r@ == raw_data@,
    {
        Cartridge { raw_data }
    }

    /// The size of the ROM image in bytes.
    pub fn len(&self) -> (r: usize)
        ensures
            r == self@.len(),
    {
        self.raw_data.len()
    }

    /// The byte at a file offset.
    pub fn byte_at(&self, addr: CartAddr) -> (r: u8)
        requires
            addr.0 < self@.len(),
        ensures
            r == self@[addr.0 as int],
    {
        self.raw_data[addr.0]
    }

    /// The bytes of a range of file offsets.
    pub fn bytes_in(&self, range: CartAddrRange) -> (r: &[u8])
        requires
            (range.0).0 <= (range.1).0 <= self@.len(),
        ensures
            r@ == self@.subrange((range.0).0 as int, (range.1).0 as int),
    {
        vstd::slice::slice_subrange(self.raw_data.as_slice(), (range.0).0, (range.1).0)
    }
}

} // verus!
