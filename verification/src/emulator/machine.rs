//! The abstract machine: the state of the processor as mathematical values,
//! and the meaning of each access as a function on it.
//!
//! Everything the executable accessors and instructions promise is stated
//! over this model.
use vstd::prelude::*;

use crate::emulator::bits::{byte_of, le32, signed32, with_high_byte, with_low_byte, wrap32};
use crate::emulator::{
    flag_bits, lemma_flag_masks, with_flag, Fault, CARRY_FLAG, OVERFLOW_FLAG, SIGN_FLAG, ZERO_FLAG,
};

verus! {

/// The state of the processor: eight registers, the raw flag word, memory as
/// a sequence of bytes, and the instruction pointer.
pub struct Machine {
    pub regs: Seq<u32>,
    pub flags: u32,
    pub mem: Seq<u8>,
    pub eip: u32,
}

/// The flag word after a subtraction `v1 - v2` whose result, computed wider
/// than 32 bits, is `wide`: carry when `wide` does not fit in 32 bits, zero
/// when its low 32 bits are 0, sign when bit 31 of them is set, overflow when
/// the operands differ in sign and the result's sign differs from `v1`'s.
pub open spec fn sub_flags(raw: u32, v1: u32, v2: u32, wide: u64) -> u32 {
    let low = wide % 0x1_0000_0000;
    let carry = wide >= 0x1_0000_0000;
    let zero = low == 0;
    let sign = low >= 0x8000_0000;
    let overflow = (v1 >= 0x8000_0000) != (v2 >= 0x8000_0000) && (v1 >= 0x8000_0000) != sign;
    with_flag(
        with_flag(with_flag(with_flag(raw, CARRY_FLAG, carry), ZERO_FLAG, zero), SIGN_FLAG, sign),
        OVERFLOW_FLAG,
        overflow,
    )
}

/// The difference `v1 - v2` in 64 bits, wrapping below zero.
pub open spec fn wide_sub(v1: u32, v2: u32) -> u64 {
    if v1 >= v2 {
        (v1 - v2) as u64
    } else {
        (v1 - v2 + 0x1_0000_0000_0000_0000) as u64
    }
}

impl Machine {
    /// The register file has its eight slots.
    pub open spec fn wf(self) -> bool {
        self.regs.len() == 8
    }

    pub open spec fn reg32(self, index: int) -> u32 {
        self.regs[index]
    }

    pub open spec fn set_reg32(self, index: int, value: u32) -> Machine {
        Machine { regs: self.regs.update(index, value), ..self }
    }

    /// 8-bit register `index`: the low byte of register `index` for 0 to 3,
    /// the second byte of register `index - 4` for 4 to 7.
    pub open spec fn reg8(self, index: int) -> u8 {
        if index < 4 {
            byte_of(self.regs[index], 0)
        } else {
            byte_of(self.regs[index - 4], 1)
        }
    }

    /// Replaces the byte that `reg8` reads; the other 24 bits stay.
    pub open spec fn set_reg8(self, index: int, value: u8) -> Machine {
        if index < 4 {
            self.set_reg32(index, with_low_byte(self.regs[index], value))
        } else {
            self.set_reg32(index - 4, with_high_byte(self.regs[index - 4], value))
        }
    }

    /// An access of `width` bytes at `addr` lies inside memory.
    pub open spec fn in_bounds(self, addr: int, width: int) -> bool {
        0 <= addr && addr + width <= self.mem.len()
    }

    /// The fault, if any, of a `width`-byte data access at `addr`.
    pub open spec fn mem_fault(self, addr: u32, width: int) -> Option<Fault> {
        if self.in_bounds(addr as int, width) {
            None
        } else {
            Some(Fault::OutOfBounds { addr: addr as u64 })
        }
    }

    pub open spec fn read8(self, addr: int) -> u8 {
        self.mem[addr]
    }

    /// The little-endian word at `addr`.
    pub open spec fn read32(self, addr: int) -> u32 {
        le32(self.mem[addr], self.mem[addr + 1], self.mem[addr + 2], self.mem[addr + 3])
    }

    pub open spec fn write8(self, addr: int, value: u8) -> Machine {
        Machine { mem: self.mem.update(addr, value), ..self }
    }

    /// Stores `value` at `addr`, least significant byte first.
    pub open spec fn write32(self, addr: int, value: u32) -> Machine {
        Machine {
            mem: self.mem.update(addr, byte_of(value, 0)).update(addr + 1, byte_of(value, 1)).update(
                addr + 2,
                byte_of(value, 2),
            ).update(addr + 3, byte_of(value, 3)),
            ..self
        }
    }

    /// The fault, if any, of reading `width` instruction bytes that start
    /// `index` bytes after the instruction pointer.
    pub open spec fn code_fault(self, index: int, width: int) -> Option<Fault> {
        if self.in_bounds(self.eip + index, width) {
            None
        } else {
            Some(Fault::OutOfBounds { addr: (self.eip + index) as u64 })
        }
    }

    /// The instruction byte `index` bytes after the instruction pointer.
    pub open spec fn code8(self, index: int) -> u8 {
        self.read8(self.eip + index)
    }

    /// The little-endian word `index` bytes after the instruction pointer.
    pub open spec fn code32(self, index: int) -> u32 {
        self.read32(self.eip + index)
    }

    /// The instruction pointer moved forward by `n`, within 32 bits.
    pub open spec fn advance(self, n: int) -> Machine {
        Machine { eip: wrap32(self.eip + n), ..self }
    }

    /// The instruction pointer set to `target`.
    pub open spec fn jump(self, target: u32) -> Machine {
        Machine { eip: target, ..self }
    }

    /// The stack pointer.
    pub open spec fn esp(self) -> u32 {
        self.regs[4]
    }

    /// The fault, if any, of pushing a word: the stack pointer must be at
    /// least 4, and the four bytes below it must lie inside memory.
    pub open spec fn push_fault(self) -> Option<Fault> {
        if self.esp() >= 4 && self.in_bounds(self.esp() - 4, 4) {
            None
        } else {
            Some(Fault::OutOfBounds { addr: wrap32(self.esp() - 4) as u64 })
        }
    }

    /// Lowers the stack pointer by 4 and stores `value` at the new top.
    pub open spec fn push(self, value: u32) -> Machine {
        self.set_reg32(4, (self.esp() - 4) as u32).write32(self.esp() - 4, value)
    }

    /// The fault, if any, of popping a word.
    pub open spec fn pop_fault(self) -> Option<Fault> {
        self.mem_fault(self.esp(), 4)
    }

    /// The word at the top of the stack.
    pub open spec fn top(self) -> u32 {
        self.read32(self.esp() as int)
    }

    /// Raises the stack pointer by 4, within 32 bits.
    pub open spec fn pop(self) -> Machine {
        self.set_reg32(4, wrap32(self.esp() + 4))
    }

    /// The flags replaced by those of the subtraction `v1 - v2`.
    pub open spec fn compare(self, v1: u32, v2: u32) -> Machine {
        Machine { flags: sub_flags(self.flags, v1, v2, wide_sub(v1, v2)), ..self }
    }
}

/// The flags of a subtraction say how its operands compare: carry exactly
/// when `v1` is below `v2` as unsigned numbers, zero exactly when they are
/// equal, sign exactly when bit 31 of the 32-bit difference is set, and
/// overflow exactly when the difference of the operands as signed numbers
/// does not fit in 32 bits. Overflow is decided by the signs alone, whatever
/// carry and zero are.
pub proof fn lemma_sub_flags(raw: u32, v1: u32, v2: u32)
    ensures
        flag_bits(sub_flags(raw, v1, v2, wide_sub(v1, v2))).carry <==> v1 < v2,
        flag_bits(sub_flags(raw, v1, v2, wide_sub(v1, v2))).zero <==> v1 == v2,
        flag_bits(sub_flags(raw, v1, v2, wide_sub(v1, v2))).sign <==> wrap32(v1 - v2)
            >= 0x8000_0000,
        flag_bits(sub_flags(raw, v1, v2, wide_sub(v1, v2))).overflow <==> !(-0x8000_0000
            <= signed32(v1) - signed32(v2) < 0x8000_0000),
        flag_bits(sub_flags(raw, v1, v2, wide_sub(v1, v2))).overflow <==> ((v1 >= 0x8000_0000) != (
        v2 >= 0x8000_0000) && (v1 >= 0x8000_0000) != (wrap32(v1 - v2) >= 0x8000_0000)),
{
    let wide = wide_sub(v1, v2);
    let low = wide % 0x1_0000_0000;
    assert(low == wrap32(v1 - v2)) by {
        if v1 >= v2 {
            assert(wide == v1 - v2);
        } else {
            assert(wide == v1 - v2 + 0x1_0000_0000_0000_0000);
            assert(wide == 0xFFFF_FFFF * 0x1_0000_0000 + (v1 - v2 + 0x1_0000_0000));
        }
    }
    let carry = wide >= 0x1_0000_0000;
    let zero = low == 0;
    let sign = low >= 0x8000_0000;
    let f1 = with_flag(raw, CARRY_FLAG, carry);
    let f2 = with_flag(f1, ZERO_FLAG, zero);
    let f3 = with_flag(f2, SIGN_FLAG, sign);
    lemma_flag_masks(raw);
    lemma_flag_masks(f1);
    lemma_flag_masks(f2);
    lemma_flag_masks(f3);
}

/// A subtraction changes no bit of the flag word but the four flags.
pub proof fn lemma_sub_flags_keeps_other_bits(raw: u32, v1: u32, v2: u32, wide: u64)
    ensures
        sub_flags(raw, v1, v2, wide) & !0x8C1u32 == raw & !0x8C1u32,
{
    let carry = wide >= 0x1_0000_0000;
    let zero = wide % 0x1_0000_0000 == 0;
    let sign = wide % 0x1_0000_0000 >= 0x8000_0000;
    let f1 = with_flag(raw, CARRY_FLAG, carry);
    let f2 = with_flag(f1, ZERO_FLAG, zero);
    let f3 = with_flag(f2, SIGN_FLAG, sign);
    lemma_other_bits(raw);
    lemma_other_bits(f1);
    lemma_other_bits(f2);
    lemma_other_bits(f3);
}

proof fn lemma_other_bits(raw: u32)
    by (bit_vector)
    ensures
        (raw | 0x001) & !0x8C1u32 == raw & !0x8C1u32,
        (raw & !0x001u32) & !0x8C1u32 == raw & !0x8C1u32,
        (raw | 0x040) & !0x8C1u32 == raw & !0x8C1u32,
        (raw & !0x040u32) & !0x8C1u32 == raw & !0x8C1u32,
        (raw | 0x080) & !0x8C1u32 == raw & !0x8C1u32,
        (raw & !0x080u32) & !0x8C1u32 == raw & !0x8C1u32,
        (raw | 0x800) & !0x8C1u32 == raw & !0x8C1u32,
        (raw & !0x800u32) & !0x8C1u32 == raw & !0x8C1u32,
{
}

/// The four bytes of a word put together again give the word.
pub proof fn lemma_le32_of_bytes(v: u32)
    ensures
        le32(byte_of(v, 0), byte_of(v, 1), byte_of(v, 2), byte_of(v, 3)) == v,
{
}

/// Reading a word where it was just written gives the word.
pub proof fn lemma_read_after_write(m: Machine, addr: int, value: u32)
    requires
        m.in_bounds(addr, 4),
    ensures
        m.write32(addr, value).read32(addr) == value,
        m.write32(addr, value).mem.len() == m.mem.len(),
{
    lemma_le32_of_bytes(value);
}

/// A push followed at once by a pop returns the pushed word and leaves the
/// stack pointer where it was: for every word and every stack pointer from
/// which four bytes downward lie inside memory.
pub proof fn lemma_push_pop(m: Machine, value: u32)
    requires
        m.wf(),
        m.push_fault() is None,
    ensures
        m.push(value).pop_fault() is None,
        m.push(value).top() == value,
        m.push(value).pop().esp() == m.esp(),
        m.push(value).pop() == m.write32(m.esp() - 4, value),
{
    lemma_read_after_write(m.set_reg32(4, (m.esp() - 4) as u32), m.esp() - 4, value);
    assert(m.push(value).pop().regs =~= m.regs);
}

/// An 8-bit register holds what was written to it, and writing it leaves
/// the other three bytes of its 32-bit register, and every other register,
/// as they were.
pub proof fn lemma_set_get_reg8(m: Machine, index: int, value: u8)
    requires
        m.wf(),
        0 <= index < 8,
    ensures
        m.set_reg8(index, value).reg8(index) == value,
        m.set_reg8(index, value).wf(),
        forall|i: int| 0 <= i < 8 && i != index % 4 ==> m.set_reg8(index, value).regs[i] == m.regs[i],
        index < 4 ==> m.set_reg8(index, value).regs[index] / 0x100 == m.regs[index] / 0x100,
        index >= 4 ==> m.set_reg8(index, value).regs[index - 4] / 0x1_0000 == m.regs[index - 4]
            / 0x1_0000 && m.set_reg8(index, value).regs[index - 4] % 0x100 == m.regs[index - 4]
            % 0x100,
        m.set_reg8(index, value).mem == m.mem,
        m.set_reg8(index, value).flags == m.flags,
        m.set_reg8(index, value).eip == m.eip,
{
}

/// A word lies in memory least significant byte first.
pub proof fn lemma_byte_order(m: Machine, addr: int, value: u32)
    requires
        m.in_bounds(addr, 4),
    ensures
        m.write32(addr, value).read8(addr) == value % 0x100,
        m.write32(addr, value).read8(addr + 1) == value / 0x100 % 0x100,
        m.write32(addr, value).read8(addr + 2) == value / 0x1_0000 % 0x100,
        m.write32(addr, value).read8(addr + 3) == value / 0x100_0000,
        forall|a: int|
            0 <= a < m.mem.len() && !(addr <= a < addr + 4) ==> m.write32(addr, value).read8(a)
                == m.read8(a),
{
}

} // verus!
