use vstd::prelude::*;

use crate::cartridge::info::game_title::{ascii_chars, decode_utf8};

verus! {

/// Size of one bank of the 24-bit address space.
pub const BANK_SIZE: usize = 0x10000;

/// A location in the banked address space (`bank * 0x10000 + offset`).
#[derive(Copy, Clone, Debug, PartialEq, Eq, Structural)]
pub struct MemAddr(pub usize);

/// The encoded length of one instruction, opcode byte included.
#[derive(Copy, Clone, Debug, PartialEq, Eq, Structural)]
pub struct InstrSize(pub usize);

/// The ASCII code of a hexadecimal digit (`0-9`, `A-F`).
pub open spec fn hex_digit(d: nat) -> u8 {
    if d < 10 {
        (48 + d) as u8
    } else {
        (55 + d) as u8
    }
}

/// `n` in upper-case hexadecimal, padded with zeros to at least `width`
/// digits, as ASCII codes.
pub open spec fn hex_bytes(n: nat, width: nat) -> Seq<u8>
    decreases n + width,
{
    if n < 16 && width <= 1 {
        seq![hex_digit(n)]
    } else {
        hex_bytes(n / 16, if width > 0 { (width - 1) as nat } else { 0 }).push(hex_digit(n % 16))
    }
}

/// An address as text, `$bank:offset`, with at least two bank digits and
/// four offset digits, as ASCII codes.
pub open spec fn addr_text(raw: nat) -> Seq<u8> {
    seq![36u8] + hex_bytes(raw / 0x10000, 2) + seq![58u8] + hex_bytes(raw % 0x10000, 4)
}

fn push_hex(buf: &mut Vec<u8>, n: usize, width: usize)
    requires
        forall|i: int| 0 <= i < old(buf)@.len() ==> old(buf)@[i] < 0x80,
    ensures
        final(buf)@ == old(buf)@ + hex_bytes(n as nat, width as nat),
        forall|i: int| 0 <= i < final(buf)@.len() ==> final(buf)@[i] < 0x80,
    decreases n + width,
{
    if n >= 16 || width > 1 {
        let w: usize = if width > 0 { width - 1 } else { 0 };
        push_hex(buf, n / 16, w);
    }
    let d = (n % 16) as u8;
    let c: u8 = if d < 10 { 48 + d } else { 55 + d };
    buf.push(c);
    assert(buf@ =~= old(buf)@ + hex_bytes(n as nat, width as nat));
}

impl MemAddr {
    /// The bank of a raw address.
    pub open spec fn bank_of(raw: int) -> int {
        raw / 0x10000
    }

    /// The offset of a raw address within its bank.
    pub open spec fn offset_of(raw: int) -> int {
        raw % 0x10000
    }

    /// The bank this address lies in.
    pub fn bank(&self) -> (r: usize)
        ensures
            r == Self::bank_of(self.0 as int),
    {
        self.0 / BANK_SIZE
    }

    /// The offset of this address within its bank.
    pub fn offset(&self) -> (r: usize)
        ensures
            r == Self::offset_of(self.0 as int),
    {
        let v = self.0;
        assert(v & 0xFFFF == v % 0x10000) by (bit_vector);
        v & 0xFFFF
    }

    /// The address as text, `$BB:OOOO` (bank and offset in upper-case
    /// hexadecimal).
    pub fn to_text(&self) -> (r: String)
        ensures
            r@ == ascii_chars(addr_text(self.0 as nat)),
    {
        let mut buf: Vec<u8> = Vec::new();
        buf.push(36u8);
        push_hex(&mut buf, self.bank(), 2);
        buf.push(58u8);
        push_hex(&mut buf, self.offset(), 4);
        assert(buf@ =~= addr_text(self.0 as nat));
        let r = decode_utf8(buf.as_slice());
        r.unwrap()
    }

    /// The address `n` bytes further on, or `None` past the end of `usize`.
    pub fn checked_offset(self, n: usize) -> (r: Option<MemAddr>)
        ensures
            r == (if self.0 + n <= usize::MAX {
                Some(MemAddr((self.0 + n) as usize))
            } else {
                None::<MemAddr>
            }),
    {
        match self.0.checked_add(n) {
            Some(v) => Some(MemAddr(v)),
            None => None,
        }
    }

    /// The address following an instruction of the given size.
    pub fn add_size(self, size: InstrSize) -> (r: MemAddr)
        requires
            self.0 + size.0 <= usize::MAX,
        ensures
            r.0 == self.0 + size.0,
    {
        MemAddr(self.0 + size.0)
    }
}

} // verus!
