use vstd::prelude::*;

use crate::mem::model::{MemType, Model, RelativeAddr};
use crate::util::{MemAddr, BANK_SIZE};

verus! {

/// Highest bank that the low-memory layout maps.
pub const LOMEM_LAST_BANK: usize = 0x3F;

/// First offset of the upper half of a bank, where ROM is mapped.
pub const ROM_WINDOW_START: usize = 0x8000;

/// The low-memory banking layout: banks `0x00..=0x3F` each show 32 KiB of
/// ROM in their upper half (`0x8000..=0xFFFF`); nothing else is mapped.
pub struct LoMem {}

/// Where the low-memory layout sends a raw address.
pub open spec fn lomem_translate(raw: usize) -> Option<RelativeAddr> {
    let bank = MemAddr::bank_of(raw as int);
    let offset = MemAddr::offset_of(raw as int);
    if bank <= LOMEM_LAST_BANK && offset >= ROM_WINDOW_START {
        Some(RelativeAddr(MemType::Cartridge, (bank * 0x10000 + offset - 0x8000) as usize))
    } else {
        None
    }
}

/// Within the mapped banks, the upper half of every bank is ROM, placed at
/// `bank * 0x10000 + offset - 0x8000`; a lower-half offset or a bank past
/// `0x3F` is not mapped.
pub proof fn lemma_lomem_translation(bank: usize, offset: usize)
    requires
        offset <= 0xFFFF,
        bank * 0x10000 + offset <= usize::MAX,
    ensures
        lomem_translate((bank * 0x10000 + offset) as usize) == (if bank <= 0x3F && offset >= 0x8000 {
            Some(RelativeAddr(MemType::Cartridge, (bank * 0x10000 + offset - 0x8000) as usize))
        } else {
            None::<RelativeAddr>
        }),
{
    let raw = bank * 0x10000 + offset;
    assert(raw / 0x10000 == bank && raw % 0x10000 == offset) by (nonlinear_arith)
        requires
            raw == bank * 0x10000 + offset,
            0 <= offset < 0x10000,
            bank >= 0,
    ;
}

impl Model for LoMem {
    open spec fn translate(&self, raw: usize) -> Option<RelativeAddr> {
        lomem_translate(raw)
    }

    fn maps(&self, raw_addr: MemAddr) -> (r: bool) {
        raw_addr.bank() <= LOMEM_LAST_BANK && raw_addr.offset() >= ROM_WINDOW_START
    }

    fn map_raw_addr(&self, raw_addr: MemAddr) -> (r: RelativeAddr) {
        let bank = raw_addr.bank();
        let addr = raw_addr.offset();
        proof {
            assert(raw_addr.0 == bank * 0x10000 + addr) by (nonlinear_arith)
                requires
                    bank == raw_addr.0 / 0x10000,
                    addr == raw_addr.0 % 0x10000,
            ;
        }
        self.map_lower_banks(bank, addr)
    }
}

impl LoMem {
    pub fn new() -> (r: LoMem) {
        LoMem {}
    }

    fn map_lower_banks(&self, bank: usize, addr: usize) -> (r: RelativeAddr)
        requires
            bank <= LOMEM_LAST_BANK,
            ROM_WINDOW_START <= addr <= 0xFFFF,
        ensures
            lomem_translate((bank * 0x10000 + addr) as usize) == Some(r),
            r == RelativeAddr(MemType::Cartridge, (bank * 0x10000 + addr - 0x8000) as usize),
    {
        proof {
            lemma_lomem_translation(bank, addr);
        }
        RelativeAddr(MemType::Cartridge, bank * BANK_SIZE + addr - ROM_WINDOW_START)
    }
}

} // verus!
