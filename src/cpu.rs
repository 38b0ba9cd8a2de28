use vstd::prelude::*;

use crate::cartridge::info::Info;
use crate::mem::model::Model;
use crate::mem::{Mem, MemFault};
use crate::util::{InstrSize, MemAddr};

verus! {

pub const CARRY_STATUS_FLAG: u8 = 0b0000_0001;
pub const ZERO_STATUS_FLAG: u8 = 0b0000_0010;
pub const IRQ_DISABLED_MODE_FLAG: u8 = 0b0000_0100;
pub const DECIMAL_MODE_FLAG: u8 = 0b0000_1000;
/// Bit 4 in emulation mode.
pub const PROGRAM_BREAK_INTERRUPT_FLAG: u8 = 0b0001_0000;
/// Bit 4 in native mode.
pub const INDEX_8BIT_MODE_FLAG: u8 = 0b0001_0000;
/// Bit 5 in native mode.
pub const ACC_8BIT_MODE_FLAG: u8 = 0b0010_0000;
pub const OVERFLOW_STATUS_FLAG: u8 = 0b0100_0000;
pub const NEGATIVE_STATUS_FLAG: u8 = 0b1000_0000;

/// Why the CPU could not carry out an instruction.
#[derive(Copy, Clone, Debug, PartialEq, Eq, Structural)]
pub enum CpuFault {
    /// The opcode at `pc` is not one this core decodes.
    UnknownInstruction { opcode: u8, pc: MemAddr },
    /// Fetching the opcode or an operand failed.
    Memory(MemFault),
}

/// The register file of the CPU.
#[derive(Copy, Clone, Debug, PartialEq, Eq, Structural)]
pub struct Cpu {
    pub pc: MemAddr,
    pub flags: u8,
    pub emulation: bool,
    pub acc: u16,
    pub dp: u16,
    /// Set by a controller to ask the run loop to stop between instructions.
    pub stop: bool,
}

/// Whether a flag bit is set in a status byte.
pub open spec fn flag_set(flags: u8, flag: u8) -> bool {
    flags & flag != 0
}

/// The status byte after a transfer of `value`: Zero iff the value is zero,
/// Negative iff its top bit at the transfer's width (bit 15 when `wide`,
/// else bit 7) is set; all other bits kept.
pub open spec fn transfer_flags(flags: u8, value: u16, wide: bool) -> u8 {
    let negative = if wide {
        value & 0x8000 != 0
    } else {
        value & 0x80 != 0
    };
    let f = if negative {
        flags | NEGATIVE_STATUS_FLAG
    } else {
        flags & !NEGATIVE_STATUS_FLAG
    };
    if value == 0 {
        f | ZERO_STATUS_FLAG
    } else {
        f & !ZERO_STATUS_FLAG
    }
}

impl Cpu {
    /// Whether the accumulator is 8 bits wide: always in emulation mode,
    /// and in native mode when the accumulator-width bit is set.
    pub open spec fn acc_8bit(&self) -> bool {
        self.emulation || flag_set(self.flags, ACC_8BIT_MODE_FLAG)
    }

    /// The immediate value of `size` bytes that follows the opcode.
    pub open spec fn operand_value<M: Model>(&self, mem: &Mem<M>, size: nat) -> Result<u16, CpuFault> {
        match mem.value_read(self.pc.0 + 1, size) {
            Ok(v) => Ok(v),
            Err(e) => Err(CpuFault::Memory(e)),
        }
    }

    /// The absolute address of `size` bytes that follows the opcode.
    pub open spec fn operand_addr<M: Model>(&self, mem: &Mem<M>, size: nat) -> Result<MemAddr, CpuFault> {
        match mem.addr_read(self.pc.0 + 1, size) {
            Ok(a) => Ok(a),
            Err(e) => Err(CpuFault::Memory(e)),
        }
    }

    /// The opcodes this core decodes.
    pub open spec fn is_known_opcode(opcode: u8) -> bool {
        opcode == 0x18 || opcode == 0x5B || opcode == 0x78 || opcode == 0x8D || opcode == 0x9C
            || opcode == 0xA9 || opcode == 0xC2 || opcode == 0xFB
    }

    /// How many operand bytes follow a known opcode in the current mode.
    pub open spec fn operand_size(&self, opcode: u8) -> nat {
        if opcode == 0x8D || opcode == 0x9C {
            2
        } else if opcode == 0xA9 {
            if self.acc_8bit() { 1 } else { 2 }
        } else if opcode == 0xC2 {
            1
        } else {
            0
        }
    }

    /// The state after executing `opcode` at `pc`, together with the
    /// instruction's encoded size; `pc` itself is not yet advanced.
    pub open spec fn execute<M: Model>(self, mem: &Mem<M>, opcode: u8) -> Result<(Cpu, nat), CpuFault> {
        if opcode == 0x18 {
            // CLC
            Ok((Cpu { flags: self.flags & !CARRY_STATUS_FLAG, ..self }, 1))
        } else if opcode == 0x5B {
            // TCD
            Ok((Cpu { dp: self.acc, flags: transfer_flags(self.flags, self.acc, true), ..self }, 1))
        } else if opcode == 0x78 {
            // SEI
            Ok((Cpu { flags: self.flags | IRQ_DISABLED_MODE_FLAG, ..self }, 1))
        } else if opcode == 0x8D || opcode == 0x9C {
            // STA abs, STZ abs: the operand is decoded, no store is made
            match self.operand_addr(mem, 2) {
                Ok(_) => Ok((self, 3)),
                Err(e) => Err(e),
            }
        } else if opcode == 0xA9 {
            // LDA #const
            let narrow = self.acc_8bit();
            let size: nat = if narrow { 1 } else { 2 };
            match self.operand_value(mem, size) {
                Ok(v) => {
                    let acc = if narrow { (self.acc & 0xFF00) | v } else { v };
                    Ok((Cpu { acc, flags: transfer_flags(self.flags, v, !narrow), ..self }, size + 1))
                },
                Err(e) => Err(e),
            }
        } else if opcode == 0xC2 {
            // REP #mask
            match self.operand_value(mem, 1) {
                Ok(mask) => Ok((Cpu { flags: self.flags & !(mask as u8), ..self }, 2)),
                Err(e) => Err(e),
            }
        } else if opcode == 0xFB {
            // XCE
            let new_emulation = flag_set(self.flags, CARRY_STATUS_FLAG);
            let f = if self.emulation {
                self.flags | CARRY_STATUS_FLAG
            } else {
                self.flags & !CARRY_STATUS_FLAG
            };
            let f = if new_emulation {
                f & !PROGRAM_BREAK_INTERRUPT_FLAG
            } else {
                f | ACC_8BIT_MODE_FLAG | INDEX_8BIT_MODE_FLAG
            };
            Ok((Cpu { flags: f, emulation: new_emulation, ..self }, 1))
        } else {
            Err(CpuFault::UnknownInstruction { opcode, pc: self.pc })
        }
    }

    /// The state after one fetch/execute step: the opcode at `pc` is
    /// executed and `pc` moves past the instruction.
    pub open spec fn step<M: Model>(self, mem: &Mem<M>) -> Result<Cpu, CpuFault> {
        match mem.byte_spec(self.pc.0 as int) {
            Err(e) => Err(CpuFault::Memory(e)),
            Ok(opcode) => match self.execute(mem, opcode) {
                Err(e) => Err(e),
                Ok((c, size)) => if self.pc.0 + size > usize::MAX {
                    Err(CpuFault::Memory(MemFault::AddressOverflow))
                } else {
                    Ok(Cpu { pc: MemAddr((self.pc.0 + size) as usize), ..c })
                },
            },
        }
    }

    /// A CPU at power-on: `pc` at the cartridge's reset vector, emulation
    /// mode, interrupts disabled, all else clear.
    pub fn new(cart_info: &Info) -> (r: Cpu)
        ensures
            r == (Cpu {
                pc: cart_info.reset_vector,
                flags: IRQ_DISABLED_MODE_FLAG,
                emulation: true,
                acc: 0,
                dp: 0,
                stop: false,
            }),
    {
        Cpu {
            pc: cart_info.reset_vector,
            flags: IRQ_DISABLED_MODE_FLAG,
            emulation: true,
            acc: 0x0000,
            dp: 0x0000,
            stop: false,
        }
    }

    /// The fault that a step from this state would meet, if any: an
    /// unreadable opcode, an opcode outside the table (reported with `pc`),
    /// an unreadable operand, or `pc` running past the end of the address
    /// type.
    pub fn step_fault<M: Model>(&self, mem: &Mem<M>) -> (r: Option<CpuFault>)
        ensures
            r == (match self.step(mem) {
                Ok(_) => None::<CpuFault>,
                Err(e) => Some(e),
            }),
    {
        assert(mem.bytes_spec(self.pc.0 as int, 0) == Ok::<Seq<u8>, MemFault>(Seq::empty()));
        match mem.check_read(self.pc, 1) {
            Err(e) => {
                return Some(CpuFault::Memory(e));
            },
            Ok(()) => {},
        }
        let instr = mem.access(self.pc);
        if !Self::known_opcode(instr) {
            return Some(CpuFault::UnknownInstruction { opcode: instr, pc: self.pc });
        }
        let size = self.operand_bytes(instr);
        if size > 0 {
            match self.pc.checked_offset(1) {
                None => {
                    proof {
                        mem.lemma_fault_propagates(self.pc.0 + 1, 0, size as nat);
                    }
                    return Some(CpuFault::Memory(MemFault::AddressOverflow));
                },
                Some(a) => match mem.check_read(a, size) {
                    Err(e) => return Some(CpuFault::Memory(e)),
                    Ok(()) => {},
                },
            }
        }
        match self.pc.checked_offset(size + 1) {
            None => Some(CpuFault::Memory(MemFault::AddressOverflow)),
            Some(_) => None,
        }
    }

    /// Whether an opcode is in the table.
    pub fn known_opcode(opcode: u8) -> (r: bool)
        ensures
            r == Self::is_known_opcode(opcode),
    {
        opcode == 0x18 || opcode == 0x5B || opcode == 0x78 || opcode == 0x8D || opcode == 0x9C
            || opcode == 0xA9 || opcode == 0xC2 || opcode == 0xFB
    }

    /// How many operand bytes follow an opcode in the current mode.
    pub fn operand_bytes(&self, opcode: u8) -> (r: usize)
        ensures
            r == self.operand_size(opcode),
    {
        if opcode == 0x8D || opcode == 0x9C {
            2
        } else if opcode == 0xA9 {
            if self.m() { 1 } else { 2 }
        } else if opcode == 0xC2 {
            1
        } else {
            0
        }
    }

    /// Fetches the opcode at `pc`, executes it and moves `pc` past it. The
    /// step must not fault (see `step_fault`).
    pub fn next_instr<M: Model>(&mut self, mem: &Mem<M>)
        requires
            old(self).step(mem) is Ok,
        ensures
            *final(self) == old(self).step(mem)->Ok_0,
    {
        let instr = mem.access(self.pc);
        let instr_size = self.handle_instr(mem, instr);
        self.pc = MemAddr(self.pc.0 + instr_size.0);
    }

    /// Executes one opcode of the table, whose operands follow `pc` and
    /// must be readable, and returns the instruction's encoded size; `pc`
    /// itself is left for the caller to advance.
    pub fn handle_instr<M: Model>(&mut self, mem: &Mem<M>, instr: u8) -> (r: InstrSize)
        requires
            Self::is_known_opcode(instr),
            old(self).execute(mem, instr) is Ok,
        ensures
            r.0 == old(self).execute(mem, instr)->Ok_0.1,
            *final(self) == old(self).execute(mem, instr)->Ok_0.0,
    {
        match instr {
            0x18 => {
                // CLC
                self.clear_flag(CARRY_STATUS_FLAG);
                InstrSize(1)
            },
            0x5B => {
                // TCD: direct-page transfers are always 16 bits wide
                self.dp = self.acc;
                self.set_transfer_flags(self.dp, 2);
                InstrSize(1)
            },
            0x78 => {
                // SEI
                self.set_flag(IRQ_DISABLED_MODE_FLAG);
                InstrSize(1)
            },
            0x8D | 0x9C => {
                // STA abs, STZ abs: the store path is not there yet, so the
                // operand is only decoded
                let _addr = self.mem_read_addr(mem, 2);
                InstrSize(3)
            },
            0xA9 => {
                // LDA #const
                let narrow = self.m();
                let const_size: usize = if narrow { 1 } else { 2 };
                let const_value = self.mem_read_value(mem, const_size);
                if narrow {
                    // only the low byte is replaced in 8-bit mode
                    self.acc = (self.acc & 0xFF00) | const_value;
                } else {
                    self.acc = const_value;
                }
                self.set_transfer_flags(const_value, const_size as u16);
                InstrSize(const_size + 1)
            },
            0xC2 => {
                // REP #mask
                let bits_to_clear = self.mem_read_value(mem, 1);
                self.clear_flag(bits_to_clear as u8);
                InstrSize(2)
            },
            _ => {
                // XCE, the one opcode of the table left
                let new_emu_mode = self.is_flag_set(CARRY_STATUS_FLAG);
                if self.emulation {
                    self.set_flag(CARRY_STATUS_FLAG);
                } else {
                    self.clear_flag(CARRY_STATUS_FLAG);
                }
                self.emulation = new_emu_mode;
                if self.emulation {
                    self.clear_flag(PROGRAM_BREAK_INTERRUPT_FLAG);
                } else {
                    self.set_flag(ACC_8BIT_MODE_FLAG);
                    self.set_flag(INDEX_8BIT_MODE_FLAG);
                }
                InstrSize(1)
            },
        }
    }

    /// Whether the accumulator is currently 8 bits wide.
    pub fn m(&self) -> (r: bool)
        ensures
            r == self.acc_8bit(),
    {
        if self.emulation {
            return true;
        }
        self.is_flag_set(ACC_8BIT_MODE_FLAG)
    }

    pub fn set_flag(&mut self, flag: u8)
        ensures
            *final(self) == (Cpu { flags: old(self).flags | flag, ..*old(self) }),
    {
        self.flags = self.flags | flag;
    }

    pub fn clear_flag(&mut self, flag: u8)
        ensures
            *final(self) == (Cpu { flags: old(self).flags & !flag, ..*old(self) }),
    {
        self.flags = self.flags & !flag;
    }

    pub fn is_flag_set(&self, flag: u8) -> (r: bool)
        ensures
            r == flag_set(self.flags, flag),
    {
        self.flags & flag != 0
    }

    /// Sets Zero and Negative from a transferred value of `transfer_size`
    /// bytes (1 or 2).
    pub fn set_transfer_flags(&mut self, transfer_value: u16, transfer_size: u16)
        requires
            transfer_size == 1 || transfer_size == 2,
        ensures
            *final(self) == (Cpu {
                flags: transfer_flags(old(self).flags, transfer_value, transfer_size == 2),
                ..*old(self)
            }),
    {
        let msb: u16 = if transfer_size == 2 { 0x8000 } else { 0x80 };
        if transfer_value & msb != 0 {
            self.set_flag(NEGATIVE_STATUS_FLAG);
        } else {
            self.clear_flag(NEGATIVE_STATUS_FLAG);
        }
        if transfer_value == 0 {
            self.set_flag(ZERO_STATUS_FLAG);
        } else {
            self.clear_flag(ZERO_STATUS_FLAG);
        }
    }

    fn mem_read_value<M: Model>(&self, mem: &Mem<M>, size: usize) -> (r: u16)
        requires
            1 <= size <= 2,
            mem.bytes_spec(self.pc.0 + 1, size as nat) is Ok,
        ensures
            Ok::<u16, CpuFault>(r) == self.operand_value(mem, size as nat),
    {
        proof {
            mem.lemma_readable_prefix(self.pc.0 + 1, 0, size as nat);
        }
        mem.read_value(MemAddr(self.pc.0 + 1), size)
    }

    fn mem_read_addr<M: Model>(&self, mem: &Mem<M>, size: usize) -> (r: MemAddr)
        requires
            1 <= size <= 4,
            mem.bytes_spec(self.pc.0 + 1, size as nat) is Ok,
        ensures
            Ok::<MemAddr, CpuFault>(r) == self.operand_addr(mem, size as nat),
    {
        proof {
            mem.lemma_readable_prefix(self.pc.0 + 1, 0, size as nat);
        }
        mem.read_addr(MemAddr(self.pc.0 + 1), size)
    }
}

/// The Negative flag follows the width of the load: an 8-bit `LDA` of
/// `0x80` sets it, while a 16-bit `LDA` of `0x0080` clears it and one of
/// `0x8000` sets it.
pub proof fn lemma_lda_negative_width<M: Model>(cpu: Cpu, mem: &Mem<M>)
    ensures
        cpu.acc_8bit() && cpu.operand_value(mem, 1) == Ok::<u16, CpuFault>(0x80) ==> cpu.execute(mem, 0xA9) is Ok
            && flag_set(cpu.execute(mem, 0xA9)->Ok_0.0.flags, NEGATIVE_STATUS_FLAG),
        !cpu.acc_8bit() && cpu.operand_value(mem, 2) == Ok::<u16, CpuFault>(0x0080) ==> cpu.execute(mem, 0xA9) is Ok
            && !flag_set(cpu.execute(mem, 0xA9)->Ok_0.0.flags, NEGATIVE_STATUS_FLAG),
        !cpu.acc_8bit() && cpu.operand_value(mem, 2) == Ok::<u16, CpuFault>(0x8000) ==> cpu.execute(mem, 0xA9) is Ok
            && flag_set(cpu.execute(mem, 0xA9)->Ok_0.0.flags, NEGATIVE_STATUS_FLAG),
{
    let f = cpu.flags;
    assert(0x80u16 & 0x80u16 != 0) by (bit_vector);
    assert(0x0080u16 & 0x8000u16 == 0) by (bit_vector);
    assert(0x8000u16 & 0x8000u16 != 0) by (bit_vector);
    assert((((f | 0x80u8) & !0x02u8) & 0x80u8) != 0) by (bit_vector);
    assert((((f & !0x80u8) & !0x02u8) & 0x80u8) == 0) by (bit_vector);
}

/// An 8-bit load replaces the accumulator's low byte with the operand and
/// keeps its high byte.
pub proof fn lemma_lda_8bit_keeps_high_byte<M: Model>(cpu: Cpu, mem: &Mem<M>)
    requires
        cpu.acc_8bit(),
        cpu.execute(mem, 0xA9) is Ok,
    ensures
        cpu.execute(mem, 0xA9)->Ok_0.0.acc & 0xFF00 == cpu.acc & 0xFF00,
        cpu.execute(mem, 0xA9)->Ok_0.0.acc & 0x00FF == cpu.operand_value(mem, 1)->Ok_0,
        cpu.execute(mem, 0xA9)->Ok_0.1 == 2,
{
    let v = cpu.operand_value(mem, 1)->Ok_0;
    let a = cpu.acc;
    mem.lemma_le_read_bound(cpu.pc.0 + 1, 1);
    reveal_with_fuel(crate::mem::pow256, 2);
    assert(v < 256);
    assert(v < 256 ==> ((a & 0xFF00) | v) & 0xFF00 == a & 0xFF00) by (bit_vector);
    assert(v < 256 ==> ((a & 0xFF00) | v) & 0x00FF == v) by (bit_vector);
}

/// Exchanging Carry with the emulation bit: leaving emulation mode with
/// Carry clear gives native mode, Carry set and both width bits set
/// (8-bit accumulator and index); entering it from native mode with Carry
/// set gives emulation mode, Carry clear and the Break bit clear.
pub proof fn lemma_xce_mode_exchange<M: Model>(cpu: Cpu, mem: &Mem<M>)
    ensures
        cpu.execute(mem, 0xFB) is Ok,
        cpu.execute(mem, 0xFB)->Ok_0.1 == 1,
        cpu.emulation && !flag_set(cpu.flags, CARRY_STATUS_FLAG) ==> ({
            let c = cpu.execute(mem, 0xFB)->Ok_0.0;
            !c.emulation && flag_set(c.flags, CARRY_STATUS_FLAG) && flag_set(c.flags, ACC_8BIT_MODE_FLAG)
                && flag_set(c.flags, INDEX_8BIT_MODE_FLAG)
        }),
        !cpu.emulation && flag_set(cpu.flags, CARRY_STATUS_FLAG) ==> ({
            let c = cpu.execute(mem, 0xFB)->Ok_0.0;
            c.emulation && !flag_set(c.flags, CARRY_STATUS_FLAG) && !flag_set(c.flags, PROGRAM_BREAK_INTERRUPT_FLAG)
        }),
{
    let f = cpu.flags;
    assert((((f | 0x01u8) | 0x20u8) | 0x10u8) & 0x01u8 != 0) by (bit_vector);
    assert((((f | 0x01u8) | 0x20u8) | 0x10u8) & 0x20u8 != 0) by (bit_vector);
    assert((((f | 0x01u8) | 0x20u8) | 0x10u8) & 0x10u8 != 0) by (bit_vector);
    assert(((f & !0x01u8) & !0x10u8) & 0x01u8 == 0) by (bit_vector);
    assert(((f & !0x01u8) & !0x10u8) & 0x10u8 == 0) by (bit_vector);
}

/// A byte that is not in the opcode table stops the step with a fault that
/// names the opcode and the `pc` it was fetched from, and the state is kept.
pub proof fn lemma_unknown_opcode_faults<M: Model>(cpu: Cpu, mem: &Mem<M>)
    requires
        mem.byte_spec(cpu.pc.0 as int) == Ok::<u8, MemFault>(0xFF),
    ensures
        cpu.step(mem) == Err::<Cpu, CpuFault>(CpuFault::UnknownInstruction { opcode: 0xFF, pc: cpu.pc }),
{
}

} // verus!
