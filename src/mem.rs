pub mod model;

use std::sync::Arc;

use vstd::prelude::*;

use crate::cartridge::{CartAddr, Cartridge};
use crate::util::MemAddr;
use self::model::{MemType, Model, RelativeAddr};

verus! {

/// Why a memory read failed.
#[derive(Copy, Clone, Debug, PartialEq, Eq, Structural)]
pub enum MemFault {
    /// The memory map maps nothing at this raw address.
    Unmapped(MemAddr),
    /// The address maps to this ROM offset, which lies past the end of the ROM.
    OutsideRom(usize),
    /// An operand address ran past the end of the address type.
    AddressOverflow,
}

/// 256 to the power `n`.
pub open spec fn pow256(n: nat) -> nat
    decreases n,
{
    if n == 0 {
        1
    } else {
        256 * pow256((n - 1) as nat)
    }
}

/// The number that a byte sequence encodes, least significant byte first.
pub open spec fn le_value(b: Seq<u8>) -> nat
    decreases b.len(),
{
    if b.len() == 0 {
        0
    } else {
        le_value(b.drop_last()) + (b.last() as nat) * pow256((b.len() - 1) as nat)
    }
}

/// A little-endian number of `n` bytes is below `256^n`.
pub proof fn lemma_le_value_bound(b: Seq<u8>)
    ensures
        le_value(b) < pow256(b.len()),
    decreases b.len(),
{
    if b.len() > 0 {
        let rest = b.drop_last();
        lemma_le_value_bound(rest);
        let p = pow256(rest.len());
        let x = le_value(rest);
        let d = b.last() as nat;
        assert(x + d * p < 256 * p) by (nonlinear_arith)
            requires
                x < p,
                d < 256,
        ;
    }
}

/// The address space as the CPU sees it: a memory map over the backing stores.
pub struct Mem<M: Model> {
    pub model: M,
    pub cartridge: Arc<Cartridge>,
}

impl<M: Model> Mem<M> {
    /// The byte at a raw address, or why it cannot be read.
    pub open spec fn byte_spec(&self, raw: int) -> Result<u8, MemFault> {
        if raw > usize::MAX {
            Err(MemFault::AddressOverflow)
        } else {
            match self.model.translate(raw as usize) {
                None => Err(MemFault::Unmapped(MemAddr(raw as usize))),
                Some(RelativeAddr(MemType::Cartridge, off)) => if off < self.cartridge@.len() {
                    Ok(self.cartridge@[off as int])
                } else {
                    Err(MemFault::OutsideRom(off))
                },
            }
        }
    }

    /// The `size` bytes from raw address `addr` on, or the fault of the
    /// first one that cannot be read.
    pub open spec fn bytes_spec(&self, addr: int, size: nat) -> Result<Seq<u8>, MemFault>
        decreases size,
    {
        if size == 0 {
            Ok(Seq::empty())
        } else {
            match self.bytes_spec(addr, (size - 1) as nat) {
                Err(e) => Err(e),
                Ok(s) => match self.byte_spec(addr + size - 1) {
                    Err(e) => Err(e),
                    Ok(b) => Ok(s.push(b)),
                },
            }
        }
    }

    /// Reads the byte at a raw address, or says why it cannot be read.
    fn try_access(&self, addr: MemAddr) -> (r: Result<u8, MemFault>)
        ensures
            r == self.byte_spec(addr.0 as int),
    {
        if !self.model.maps(addr) {
            return Err(MemFault::Unmapped(addr));
        }
        match self.model.map_raw_addr(addr) {
            RelativeAddr(MemType::Cartridge, cart_addr) => {
                if cart_addr < self.cartridge.len() {
                    Ok(self.cartridge.byte_at(CartAddr(cart_addr)))
                } else {
                    Err(MemFault::OutsideRom(cart_addr))
                }
            },
        }
    }

    /// Reads the byte at a readable raw address.
    pub fn access(&self, addr: MemAddr) -> (r: u8)
        requires
            self.byte_spec(addr.0 as int) is Ok,
        ensures
            r == self.byte_spec(addr.0 as int)->Ok_0,
    {
        match self.model.map_raw_addr(addr) {
            RelativeAddr(MemType::Cartridge, cart_addr) => self.cartridge.byte_at(CartAddr(cart_addr)),
        }
    }

    /// Whether the `size` bytes from `addr` on can all be read; if not, the
    /// fault of the first one that cannot.
    pub fn check_read(&self, addr: MemAddr, size: usize) -> (r: Result<(), MemFault>)
        ensures
            r is Ok <==> self.bytes_spec(addr.0 as int, size as nat) is Ok,
            r is Err ==> r->Err_0 == self.bytes_spec(addr.0 as int, size as nat)->Err_0,
    {
        let mut i: usize = 0;
        while i < size
            invariant
                i <= size,
                self.bytes_spec(addr.0 as int, i as nat) is Ok,
            decreases size - i,
        {
            match addr.checked_offset(i) {
                None => {
                    proof {
                        self.lemma_fault_propagates(addr.0 as int, i as nat, size as nat);
                    }
                    return Err(MemFault::AddressOverflow);
                },
                Some(a) => match self.try_access(a) {
                    Err(e) => {
                        proof {
                            self.lemma_fault_propagates(addr.0 as int, i as nat, size as nat);
                        }
                        return Err(e);
                    },
                    Ok(_) => {},
                },
            }
            i = i + 1;
        }
        Ok(())
    }

    /// The number that the `size` bytes from raw address `addr` on encode,
    /// least significant byte first, or the fault of the first unreadable byte.
    pub open spec fn le_read(&self, addr: int, size: nat) -> Result<nat, MemFault> {
        match self.bytes_spec(addr, size) {
            Ok(b) => Ok(le_value(b)),
            Err(e) => Err(e),
        }
    }

    /// What `read_value` gives for `size` bytes at `addr`.
    pub open spec fn value_read(&self, addr: int, size: nat) -> Result<u16, MemFault> {
        match self.le_read(addr, size) {
            Ok(v) => Ok(v as u16),
            Err(e) => Err(e),
        }
    }

    /// What `read_addr` gives for `size` bytes at `addr`.
    pub open spec fn addr_read(&self, addr: int, size: nat) -> Result<MemAddr, MemFault> {
        match self.le_read(addr, size) {
            Ok(v) => Ok(MemAddr(v as usize)),
            Err(e) => Err(e),
        }
    }

    proof fn lemma_bytes_len(&self, addr: int, n: nat)
        requires
            self.bytes_spec(addr, n) is Ok,
        ensures
            self.bytes_spec(addr, n)->Ok_0.len() == n,
        decreases n,
    {
        if n > 0 {
            self.lemma_bytes_len(addr, (n - 1) as nat);
        }
    }

    /// A successful read of `n` bytes yields a number below `256^n`.
    pub proof fn lemma_le_read_bound(&self, addr: int, n: nat)
        requires
            self.le_read(addr, n) is Ok,
        ensures
            self.le_read(addr, n)->Ok_0 < pow256(n),
    {
        self.lemma_bytes_len(addr, n);
        lemma_le_value_bound(self.bytes_spec(addr, n)->Ok_0);
    }

    /// Once a byte cannot be read, every longer read from the same start
    /// fails with that byte's fault.
    pub proof fn lemma_fault_propagates(&self, addr: int, i: nat, n: nat)
        requires
            i < n,
            self.bytes_spec(addr, i) is Ok,
            self.byte_spec(addr + i) is Err,
        ensures
            self.bytes_spec(addr, n) == Err::<Seq<u8>, MemFault>(self.byte_spec(addr + i)->Err_0),
        decreases n,
    {
        if n > i + 1 {
            self.lemma_fault_propagates(addr, i, (n - 1) as nat);
        }
    }

    /// Within a readable run of bytes, every shorter run from the same
    /// start and every byte in it can be read.
    pub proof fn lemma_readable_prefix(&self, addr: int, i: nat, n: nat)
        requires
            i < n,
            self.bytes_spec(addr, n) is Ok,
        ensures
            self.bytes_spec(addr, i) is Ok,
            self.byte_spec(addr + i) is Ok,
            self.bytes_spec(addr, i + 1) == Ok::<Seq<u8>, MemFault>(
                self.bytes_spec(addr, i)->Ok_0.push(self.byte_spec(addr + i)->Ok_0),
            ),
        decreases n,
    {
        if n > i + 1 {
            self.lemma_readable_prefix(addr, i, (n - 1) as nat);
            self.lemma_readable_prefix(addr, (n - 2) as nat, (n - 1) as nat);
            if i + 1 < n - 1 {
                self.lemma_readable_prefix(addr, i + 1, (n - 1) as nat);
            }
        }
    }

    /// Reads `size` readable bytes from `addr` on and combines them least
    /// significant byte first.
    fn read_le(&self, addr: MemAddr, size: usize) -> (r: usize)
        requires
            size <= 4,
            self.bytes_spec(addr.0 as int, size as nat) is Ok,
        ensures
            r == self.le_read(addr.0 as int, size as nat)->Ok_0,
            r < pow256(size as nat),
    {
        let mut value: usize = 0;
        let mut scale: usize = 1;
        let mut i: usize = 0;
        while i < size
            invariant
                i <= size <= 4,
                self.bytes_spec(addr.0 as int, size as nat) is Ok,
                self.bytes_spec(addr.0 as int, i as nat) is Ok,
                self.bytes_spec(addr.0 as int, i as nat)->Ok_0.len() == i,
                value == le_value(self.bytes_spec(addr.0 as int, i as nat)->Ok_0),
                value < pow256(i as nat),
                i < size ==> scale == pow256(i as nat),
            decreases size - i,
        {
            let ghost prefix = self.bytes_spec(addr.0 as int, i as nat)->Ok_0;
            proof {
                self.lemma_readable_prefix(addr.0 as int, i as nat, size as nat);
            }
            let b = self.access(MemAddr(addr.0 + i));
            proof {
                assert(prefix.push(b).drop_last() =~= prefix);
                reveal_with_fuel(pow256, 5);
                assert(pow256(i as nat + 1) <= 0x1_0000_0000);
                assert(value + b * scale < 256 * scale) by (nonlinear_arith)
                    requires
                        value < scale,
                        b < 256,
                ;
            }
            value = value + (b as usize) * scale;
            i = i + 1;
            if i < size {
                scale = scale * 256;
            }
        }
        value
    }

    /// Reads a `size`-byte little-endian value starting at `addr_addr`
    /// (`byte[0] | byte[1] << 8`); every byte must be readable.
    pub fn read_value(&self, addr_addr: MemAddr, size: usize) -> (r: u16)
        requires
            size <= 2,
            self.bytes_spec(addr_addr.0 as int, size as nat) is Ok,
        ensures
            Ok::<u16, MemFault>(r) == self.value_read(addr_addr.0 as int, size as nat),
    {
        let v = self.read_le(addr_addr, size);
        proof {
            reveal_with_fuel(pow256, 3);
        }
        v as u16
    }

    /// Reads a `size`-byte little-endian address starting at `addr_addr`,
    /// combining the bytes exactly as `read_value` does; every byte must be
    /// readable.
    pub fn read_addr(&self, addr_addr: MemAddr, size: usize) -> (r: MemAddr)
        requires
            size <= 4,
            self.bytes_spec(addr_addr.0 as int, size as nat) is Ok,
        ensures
            Ok::<MemAddr, MemFault>(r) == self.addr_read(addr_addr.0 as int, size as nat),
    {
        MemAddr(self.read_le(addr_addr, size))
    }
}

/// Two bytes combine least significant first: `[lo, hi]` is `lo + 256 * hi`.
pub proof fn lemma_two_byte_value(lo: u8, hi: u8)
    ensures
        le_value(seq![lo, hi]) == lo + 256 * hi,
{
    reveal_with_fuel(pow256, 2);
    let s = seq![lo, hi];
    let t = seq![lo];
    let e = Seq::<u8>::empty();
    assert(s.drop_last() =~= t);
    assert(t.drop_last() =~= e);
    assert(t.len() == 1 && t.last() == lo && s.len() == 2 && s.last() == hi);
    assert(le_value(e) == 0 && pow256(0) == 1 && pow256(1) == 256);
    assert(le_value(t) == le_value(e) + (t.last() as nat) * pow256(0));
    assert(le_value(s) == le_value(t) + (s.last() as nat) * pow256(1));
}

/// A value read and an address read of the same bytes agree: both succeed
/// or fail together, with the same fault, and the value equals the address.
pub proof fn lemma_value_and_addr_reads_agree<M: Model>(mem: &Mem<M>, addr: int, size: nat)
    requires
        size <= 2,
    ensures
        mem.value_read(addr, size) is Ok <==> mem.addr_read(addr, size) is Ok,
        mem.value_read(addr, size) is Err ==> mem.value_read(addr, size)->Err_0 == mem.addr_read(addr, size)->Err_0,
        mem.value_read(addr, size) is Ok ==> mem.value_read(addr, size)->Ok_0 as usize == mem.addr_read(addr, size)->Ok_0.0,
{
    if mem.le_read(addr, size) is Ok {
        mem.lemma_le_read_bound(addr, size);
        reveal_with_fuel(pow256, 3);
    }
}

} // verus!
