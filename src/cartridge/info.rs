pub mod game_title;

use vstd::prelude::*;

use crate::cartridge::{CartAddr, Cartridge};
use crate::util::MemAddr;
use self::game_title::{
    ascii_chars, holds_title, title_bytes, utf8_text, GameTitle, GAME_TITLE_LEN, GAME_TITLE_OFFSET,
};

verus! {

/// File offset of the two-byte little-endian reset vector.
pub const RESET_VECTOR_OFFSET: usize = 0x7FFC;

/// Why the cartridge header could not be read.
#[derive(Copy, Clone, Debug, PartialEq, Eq, Structural)]
pub enum InfoError {
    /// The ROM image ends before the header field.
    RomTooShort,
    /// The title bytes are not valid UTF-8 text.
    TitleNotText,
}

/// The header fields read from a cartridge.
pub struct Info {
    pub game_title: GameTitle,
    pub reset_vector: MemAddr,
}

/// Whether a ROM image is long enough to hold the reset vector (and so the
/// whole header).
pub open spec fn holds_reset_vector(rom: Seq<u8>) -> bool {
    rom.len() >= RESET_VECTOR_OFFSET + 2
}

/// The reset vector stored in a ROM image that holds one: an offset in
/// bank 0.
pub open spec fn reset_vector_of(rom: Seq<u8>) -> MemAddr {
    MemAddr((rom[RESET_VECTOR_OFFSET as int] + 256 * rom[RESET_VECTOR_OFFSET + 1]) as usize)
}

/// The header of a ROM image, title first, or why it cannot be read.
pub open spec fn info_of(rom: Seq<u8>) -> Result<(Seq<char>, MemAddr), InfoError> {
    if !holds_title(rom) {
        Err(InfoError::RomTooShort)
    } else if utf8_text(title_bytes(rom)) is None {
        Err(InfoError::TitleNotText)
    } else if !holds_reset_vector(rom) {
        Err(InfoError::RomTooShort)
    } else {
        Ok((utf8_text(title_bytes(rom))->Some_0, reset_vector_of(rom)))
    }
}

/// Reads the title and the reset vector from a cartridge whose header is
/// there and whose title is text.
pub fn from_cartridge(cartridge: &Cartridge) -> (r: Info)
    requires
        holds_reset_vector(cartridge@),
        utf8_text(title_bytes(cartridge@)) is Some,
    ensures
        r.game_title.title@ == utf8_text(title_bytes(cartridge@))->Some_0,
        r.reset_vector == reset_vector_of(cartridge@),
        r.reset_vector.0 <= 0xFFFF,
        (forall|i: int| 0 <= i < GAME_TITLE_LEN ==> #[trigger] title_bytes(cartridge@)[i] < 0x80)
            ==> r.game_title.title@ == ascii_chars(title_bytes(cartridge@)),
{
    Info { game_title: game_title::from_cartridge(cartridge), reset_vector: reset_vecor(cartridge) }
}

/// Reads the header of any cartridge: the title and reset vector, or which
/// of the two could not be read.
pub fn read_header(cartridge: &Cartridge) -> (r: Result<Info, InfoError>)
    ensures
        r is Ok <==> info_of(cartridge@) is Ok,
        r is Ok ==> r->Ok_0.game_title.title@ == info_of(cartridge@)->Ok_0.0
            && r->Ok_0.reset_vector == info_of(cartridge@)->Ok_0.1,
        r is Err ==> r->Err_0 == info_of(cartridge@)->Err_0,
        r is Ok && (forall|i: int| 0 <= i < GAME_TITLE_LEN ==> #[trigger] title_bytes(cartridge@)[i] < 0x80)
            ==> r->Ok_0.game_title.title@ == ascii_chars(title_bytes(cartridge@)),
{
    if cartridge.len() < GAME_TITLE_OFFSET + GAME_TITLE_LEN {
        return Err(InfoError::RomTooShort);
    }
    if !game_title::title_is_text(cartridge) {
        return Err(InfoError::TitleNotText);
    }
    if cartridge.len() < RESET_VECTOR_OFFSET + 2 {
        return Err(InfoError::RomTooShort);
    }
    Ok(from_cartridge(cartridge))
}

fn reset_vecor(cartridge: &Cartridge) -> (r: MemAddr)
    requires
        holds_reset_vector(cartridge@),
    ensures
        r == reset_vector_of(cartridge@),
        r.0 <= 0xFFFF,
{
    let lo = cartridge.byte_at(CartAddr(RESET_VECTOR_OFFSET)) as usize;
    let hi = cartridge.byte_at(CartAddr(RESET_VECTOR_OFFSET + 1)) as usize;
    MemAddr(lo + 256 * hi)
}

} // verus!
