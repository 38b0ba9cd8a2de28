pub mod lomem;

use vstd::prelude::*;

use crate::util::MemAddr;

verus! {

/// The backing store that a translated address belongs to.
#[derive(Copy, Clone, Debug, PartialEq, Eq, Structural)]
pub enum MemType {
    Cartridge,
}

/// A translated address: its region and the offset within that region.
#[derive(Copy, Clone, Debug, PartialEq, Eq, Structural)]
pub struct RelativeAddr(pub MemType, pub usize);

/// A memory map: it translates a raw bank:offset address into a region and
/// an offset within that region.
pub trait Model {
    /// Where this map sends a raw address; `None` where it maps nothing.
    spec fn translate(&self, raw: usize) -> Option<RelativeAddr>;

    /// Whether this map maps a raw address at all.
    fn maps(&self, raw_addr: MemAddr) -> (r: bool)
        ensures
            r == self.translate(raw_addr.0) is Some,
    ;

    /// Translates a raw address that this map maps.
    fn map_raw_addr(&self, raw_addr: MemAddr) -> (r: RelativeAddr)
        requires
            self.translate(raw_addr.0) is Some,
        ensures
            r == self.translate(raw_addr.0)->Some_0,
    ;
}

} // verus!
