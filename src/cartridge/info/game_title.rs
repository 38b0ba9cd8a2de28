use vstd::prelude::*;

use crate::cartridge::{CartAddr, CartAddrRange, Cartridge};

verus! {

/// File offset of the game title.
pub const GAME_TITLE_OFFSET: usize = 0x7FC0;

/// Length in bytes of the game title field.
pub const GAME_TITLE_LEN: usize = 21;

/// The game's title as stored in the header, padding included.
pub struct GameTitle {
    pub title: String,
}

/// The text that a byte sequence encodes in UTF-8, or `None` where it is not
/// valid UTF-8.
pub uninterp spec fn utf8_text(b: Seq<u8>) -> Option<Seq<char>>;

/// The characters of bytes that are all ASCII, one per byte.
pub open spec fn ascii_chars(b: Seq<u8>) -> Seq<char> {
    b.map_values(|c: u8| c as char)
}

/// Relies on `std::str::from_utf8`: it accepts exactly the valid UTF-8 byte
/// sequences and then yields the text they encode; bytes below `0x80` are
/// valid and each stands for the ASCII character of that code.
#[verifier::external_body]
pub(crate) fn decode_utf8(b: &[u8]) -> (r: Option<String>)
    ensures
        r is Some <==> utf8_text(b@) is Some,
        r is Some ==> r->Some_0@ == utf8_text(b@)->Some_0,
        (forall|i: int| 0 <= i < b@.len() ==> b@[i] < 0x80) ==> r is Some && r->Some_0@ == ascii_chars(b@),
{
    std::str::from_utf8(b).ok().map(|s| s.to_string())
}

/// The bytes of the title field of a ROM image that holds one.
pub open spec fn title_bytes(rom: Seq<u8>) -> Seq<u8> {
    rom.subrange(GAME_TITLE_OFFSET as int, GAME_TITLE_OFFSET + GAME_TITLE_LEN)
}

/// Whether a ROM image is long enough to hold the title field.
pub open spec fn holds_title(rom: Seq<u8>) -> bool {
    rom.len() >= GAME_TITLE_OFFSET + GAME_TITLE_LEN
}

/// Whether the title field of a ROM image is UTF-8 text.
pub fn title_is_text(cartridge: &Cartridge) -> (r: bool)
    requires
        holds_title(cartridge@),
    ensures
        r == utf8_text(title_bytes(cartridge@)) is Some,
{
    decode_utf8(title_bytes_of(cartridge)).is_some()
}

fn title_bytes_of(cartridge: &Cartridge) -> (r: &[u8])
    requires
        holds_title(cartridge@),
    ensures
        r@ == title_bytes(cartridge@),
{
    cartridge.bytes_in(
        CartAddrRange(CartAddr(GAME_TITLE_OFFSET), CartAddr(GAME_TITLE_OFFSET + GAME_TITLE_LEN)),
    )
}

/// Reads the 21-byte title field at `0x7FC0`, which must be UTF-8 text; an
/// ASCII title reads as its bytes' characters.
pub fn from_cartridge(cartridge: &Cartridge) -> (r: GameTitle)
    requires
        holds_title(cartridge@),
        utf8_text(title_bytes(cartridge@)) is Some,
    ensures
        r.title@ == utf8_text(title_bytes(cartridge@))->Some_0,
        (forall|i: int| 0 <= i < GAME_TITLE_LEN ==> #[trigger] title_bytes(cartridge@)[i] < 0x80)
            ==> r.title@ == ascii_chars(title_bytes(cartridge@)),
{
    let title = decode_utf8(title_bytes_of(cartridge)).unwrap();
    GameTitle { title }
}

} // verus!
