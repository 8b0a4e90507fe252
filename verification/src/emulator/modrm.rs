//! The addressing-mode resolver: decoding of the ModRM byte with its
//! optional SIB byte and displacement, and access to the operands it names.
use vstd::prelude::*;

use crate::emulator::bits::{signed8, wrap32};
use crate::emulator::machine::{lemma_read_after_write, Machine};
use crate::emulator::{Emulator, Fault};

verus! {

/// The middle field of a ModRM byte. It names a register for most opcodes and
/// selects the operation for the group opcodes; the two variants carry the
/// same three bits.
#[derive(Debug, Copy, Clone, PartialEq, Eq)]
pub enum OR {
    Opecode(u8),
    RegIndex(u8),
}

impl OR {
    /// The three bits, whichever way they are read.
    pub open spec fn value(self) -> u8 {
        match self {
            OR::Opecode(v) => v,
            OR::RegIndex(v) => v,
        }
    }

    /// The three bits, whichever way they are read.
    pub fn unwrap(self) -> (r: u8)
        ensures
            r == self.value(),
    {
        match self {
            OR::Opecode(ret) => ret,
            OR::RegIndex(ret) => ret,
        }
    }
}

/// A displacement: one signed byte or four bytes.
#[derive(Debug, Copy, Clone, PartialEq, Eq)]
pub enum Disp {
    Disp8(i8),
    Disp32(u32),
}

impl Disp {
    /// The signed byte of a one-byte displacement.
    pub fn byte(self) -> (r: i8)
        requires
            self is Disp8,
        ensures
            self == Disp::Disp8(r),
    {
        match self {
            Disp::Disp8(ret) => ret,
            Disp::Disp32(_) => 0,
        }
    }

    /// The word of a four-byte displacement.
    pub fn dword(self) -> (r: u32)
        requires
            self is Disp32,
        ensures
            self == Disp::Disp32(r),
    {
        match self {
            Disp::Disp32(ret) => ret,
            Disp::Disp8(_) => 0,
        }
    }
}

/// A decoded operand descriptor.
#[derive(Debug, Copy, Clone, PartialEq, Eq)]
pub struct ModRM {
    pub mod_byte: u8,
    pub or: OR,
    pub rm: u8,
    pub sib: u8,
    pub disp: Disp,
}

/// The addressing form needs a SIB byte.
pub open spec fn has_sib(mod_byte: u8, rm: u8) -> bool {
    mod_byte != 3 && rm == 4
}

/// Number of displacement bytes that follow the ModRM (and SIB) byte.
pub open spec fn disp_width(mod_byte: u8, rm: u8) -> int {
    if (mod_byte == 0 && rm == 5) || mod_byte == 2 {
        4
    } else if mod_byte == 1 {
        1
    } else {
        0
    }
}

impl ModRM {
    /// The fields are in range and the displacement has the size its form
    /// calls for. Every descriptor that decoding produces is well formed.
    pub open spec fn wf(self) -> bool {
        &&& self.mod_byte <= 3
        &&& self.or.value() < 8
        &&& self.rm < 8
        &&& disp_width(self.mod_byte, self.rm) == 4 ==> self.disp is Disp32
        &&& disp_width(self.mod_byte, self.rm) == 1 ==> self.disp is Disp8
    }

    /// The operand is in memory, in a form that is decoded.
    pub open spec fn addressable(self) -> bool {
        self.wf() && self.mod_byte != 3 && self.rm != 4
    }

    /// Number of bytes that decoding this descriptor consumed.
    pub open spec fn len(self) -> int {
        1 + (if has_sib(self.mod_byte, self.rm) {
            1int
        } else {
            0int
        }) + disp_width(self.mod_byte, self.rm)
    }
}

/// The descriptor that the bytes at the instruction pointer encode, with the
/// machine advanced past them; or the fault of the first byte that lies
/// outside memory.
///
/// The top two bits of the first byte are the mod field, the next three the
/// register-or-selector field, the low three the rm field. A SIB byte
/// follows when mod is not 3 and rm is 4; then four displacement bytes when
/// mod is 2 or mod is 0 with rm 5, one when mod is 1.
pub open spec fn decode_modrm(m: Machine) -> Result<(ModRM, Machine), Fault> {
    if m.code_fault(0, 1) is Some {
        Err(m.code_fault(0, 1).unwrap())
    } else {
        let code = m.code8(0);
        let mod_byte = code / 64;
        let reg = code / 8 % 8;
        let rm = code % 8;
        let m1 = m.advance(1);
        if has_sib(mod_byte, rm) && m1.code_fault(0, 1) is Some {
            Err(m1.code_fault(0, 1).unwrap())
        } else {
            let sib = if has_sib(mod_byte, rm) {
                m1.code8(0)
            } else {
                0u8
            };
            let m2 = if has_sib(mod_byte, rm) {
                m1.advance(1)
            } else {
                m1
            };
            let width = disp_width(mod_byte, rm);
            if width != 0 && m2.code_fault(0, width) is Some {
                Err(m2.code_fault(0, width).unwrap())
            } else {
                let disp = if width == 1 {
                    Disp::Disp8(signed8(m2.code8(0)) as i8)
                } else if width == 4 {
                    Disp::Disp32(m2.code32(0))
                } else {
                    Disp::Disp32(0)
                };
                Ok(
                    (
                        ModRM { mod_byte, or: OR::RegIndex(reg), rm, sib, disp },
                        m2.advance(width),
                    ),
                )
            }
        }
    }
}

impl Machine {
    /// The address a memory operand refers to: the displacement alone when
    /// mod is 0 and rm is 5, else the base register plus the displacement,
    /// within 32 bits.
    pub open spec fn effective_address(self, modrm: ModRM) -> u32 {
        if modrm.mod_byte == 0 {
            if modrm.rm == 5 {
                modrm.disp->Disp32_0
            } else {
                self.regs[modrm.rm as int]
            }
        } else if modrm.mod_byte == 1 {
            wrap32(self.regs[modrm.rm as int] + modrm.disp->Disp8_0)
        } else {
            wrap32(self.regs[modrm.rm as int] + modrm.disp->Disp32_0)
        }
    }

    /// The fault, if any, of a `width`-byte access to the rm operand: none
    /// for a register, the unimplemented form for one that needs a SIB byte,
    /// else that of the memory access.
    pub open spec fn rm_fault(self, modrm: ModRM, width: int) -> Option<Fault> {
        if modrm.mod_byte == 3 {
            None
        } else if modrm.rm == 4 {
            Some(Fault::UnimplementedAddressing { mod_byte: modrm.mod_byte, rm: modrm.rm })
        } else {
            self.mem_fault(self.effective_address(modrm), width)
        }
    }

    /// The word the rm field names: a register when mod is 3, else the word
    /// at the effective address.
    pub open spec fn rm32(self, modrm: ModRM) -> u32 {
        if modrm.mod_byte == 3 {
            self.reg32(modrm.rm as int)
        } else {
            self.read32(self.effective_address(modrm) as int)
        }
    }

    pub open spec fn set_rm32(self, modrm: ModRM, value: u32) -> Machine {
        if modrm.mod_byte == 3 {
            self.set_reg32(modrm.rm as int, value)
        } else {
            self.write32(self.effective_address(modrm) as int, value)
        }
    }

    /// The byte the rm field names: an 8-bit register when mod is 3, else
    /// the byte at the effective address.
    pub open spec fn rm8(self, modrm: ModRM) -> u8 {
        if modrm.mod_byte == 3 {
            self.reg8(modrm.rm as int)
        } else {
            self.read8(self.effective_address(modrm) as int)
        }
    }

    pub open spec fn set_rm8(self, modrm: ModRM, value: u8) -> Machine {
        if modrm.mod_byte == 3 {
            self.set_reg8(modrm.rm as int, value)
        } else {
            self.write8(self.effective_address(modrm) as int, value)
        }
    }

    /// The register the middle field names, whatever mod is.
    pub open spec fn r32(self, modrm: ModRM) -> u32 {
        self.reg32(modrm.or.value() as int)
    }

    pub open spec fn set_r32(self, modrm: ModRM, value: u32) -> Machine {
        self.set_reg32(modrm.or.value() as int, value)
    }

    /// The 8-bit register the middle field names, whatever mod is.
    pub open spec fn r8(self, modrm: ModRM) -> u8 {
        self.reg8(modrm.or.value() as int)
    }

    pub open spec fn set_r8(self, modrm: ModRM, value: u8) -> Machine {
        self.set_reg8(modrm.or.value() as int, value)
    }
}

/// The three fields of a ModRM byte, read by mask and shift.
proof fn lemma_modrm_fields(code: u8)
    by (bit_vector)
    ensures
        ((code & 0xC0) >> 6) == code / 64,
        ((code & 0x38) >> 3) == code / 8 % 8,
        (code & 0x07) == code % 8,
        code / 64 <= 3,
{
}

/// The fault that an undecoded addressing form raises.
pub fn modrm_not_impl(modrm: ModRM) -> (f: Fault)
    ensures
        f == (Fault::UnimplementedAddressing { mod_byte: modrm.mod_byte, rm: modrm.rm }),
{
    Fault::UnimplementedAddressing { mod_byte: modrm.mod_byte, rm: modrm.rm }
}

impl Emulator {
    /// The fault, if any, of reading `width` instruction bytes `index` bytes
    /// after the instruction pointer.
    pub fn code_fault(&self, index: u32, width: u32) -> (r: Option<Fault>)
        ensures
            r == self@.code_fault(index as int, width as int),
    {
        let start: u64 = self.eip as u64 + index as u64;
        if start + width as u64 <= self.memory.len() as u64 {
            None
        } else {
            Some(Fault::OutOfBounds { addr: start })
        }
    }

    /// The fault, if any, of a `width`-byte data access at `addr`.
    pub fn mem_fault(&self, addr: u32, width: u32) -> (r: Option<Fault>)
        ensures
            r == self@.mem_fault(addr, width as int),
    {
        if addr as u64 + width as u64 <= self.memory.len() as u64 {
            None
        } else {
            Some(Fault::OutOfBounds { addr: addr as u64 })
        }
    }

    /// Decodes the operand descriptor at the instruction pointer and moves
    /// the pointer past every byte of it. On a fault nothing changes.
    #[verifier::rlimit(50)]
    pub fn parse_modrm(&mut self) -> (r: Result<ModRM, Fault>)
        ensures
            match decode_modrm(old(self)@) {
                Ok((modrm, next)) => r == Ok::<ModRM, Fault>(modrm) && final(self)@ == next,
                Err(fault) => r == Err::<ModRM, Fault>(fault) && final(self)@ == old(self)@,
            },
            r is Ok ==> r.unwrap().wf() && final(self)@.eip == wrap32(
                old(self)@.eip + r.unwrap().len(),
            ),
            final(self)@ == (Machine { eip: final(self)@.eip, ..old(self)@ }),
    {
        let start: u32 = self.eip;
        if let Some(fault) = self.code_fault(0, 1) {
            return Err(fault);
        }
        let code: u8 = self.get_code8(0);
        proof {
            lemma_modrm_fields(code);
        }
        let mod_byte: u8 = (code & 0xC0) >> 6;
        let reg: u8 = (code & 0x38) >> 3;
        let rm: u8 = code & 0x07;
        let mut sib: u8 = 0;
        let mut disp: Disp = Disp::Disp32(0);
        self.eip = self.eip.wrapping_add(1);

        if mod_byte != 3 && rm == 4 {
            if let Some(fault) = self.code_fault(0, 1) {
                self.eip = start;
                return Err(fault);
            }
            sib = self.get_code8(0);
            self.eip = self.eip.wrapping_add(1);
        }
        if (mod_byte == 0 && rm == 5) || mod_byte == 2 {
            if let Some(fault) = self.code_fault(0, 4) {
                self.eip = start;
                return Err(fault);
            }
            disp = Disp::Disp32(self.get_code32(0));
            self.eip = self.eip.wrapping_add(4);
        } else if mod_byte == 1 {
            if let Some(fault) = self.code_fault(0, 1) {
                self.eip = start;
                return Err(fault);
            }
            disp = Disp::Disp8(self.get_sign_code8(0));
            self.eip = self.eip.wrapping_add(1);
        }
        Ok(ModRM { mod_byte, or: OR::RegIndex(reg), rm, sib, disp })
    }

    /// The address of a memory operand.
    pub fn calc_memory_address(&self, modrm: &ModRM) -> (r: u32)
        requires
            modrm.addressable(),
        ensures
            r == self@.effective_address(*modrm),
    {
        if modrm.mod_byte == 0 {
            if modrm.rm == 5 {
                modrm.disp.dword()
            } else {
                self.get_register32(modrm.rm as usize)
            }
        } else if modrm.mod_byte == 1 {
            self.get_register32(modrm.rm as usize).wrapping_add_signed(modrm.disp.byte() as i32)
        } else {
            self.get_register32(modrm.rm as usize).wrapping_add(modrm.disp.dword())
        }
    }

    /// The fault, if any, of a `width`-byte access to the rm operand.
    pub fn rm_fault(&self, modrm: &ModRM, width: u32) -> (r: Option<Fault>)
        requires
            modrm.wf(),
        ensures
            r == self@.rm_fault(*modrm, width as int),
    {
        if modrm.mod_byte == 3 {
            None
        } else if modrm.rm == 4 {
            Some(modrm_not_impl(*modrm))
        } else {
            let addr: u32 = self.calc_memory_address(modrm);
            self.mem_fault(addr, width)
        }
    }

    /// The byte the rm field names: an 8-bit register when mod is 3, else
    /// the byte at the effective address.
    pub fn get_rm8(&mut self, modrm: &ModRM) -> (r: u8)
        requires
            modrm.wf(),
            old(self)@.rm_fault(*modrm, 1) is None,
        ensures
            r == old(self)@.rm8(*modrm),
            *final(self) == *old(self),
    {
        if modrm.mod_byte == 3 {
            self.get_register8(modrm.rm as usize)
        } else {
            let addr: u32 = self.calc_memory_address(modrm);
            self.get_memory8(addr)
        }
    }

    /// The word the rm field names: a register when mod is 3, else the word
    /// at the effective address.
    pub fn get_rm32(&mut self, modrm: &ModRM) -> (r: u32)
        requires
            modrm.wf(),
            old(self)@.rm_fault(*modrm, 4) is None,
        ensures
            r == old(self)@.rm32(*modrm),
            *final(self) == *old(self),
    {
        if modrm.mod_byte == 3 {
            self.get_register32(modrm.rm as usize)
        } else {
            let addr: u32 = self.calc_memory_address(modrm);
            self.get_memory32(addr)
        }
    }

    /// The 8-bit register the middle field names.
    pub fn get_r8(&mut self, modrm: &ModRM) -> (r: u8)
        requires
            modrm.or.value() < 8,
        ensures
            r == old(self)@.r8(*modrm),
            *final(self) == *old(self),
    {
        self.get_register8(modrm.or.unwrap() as usize)
    }

    /// The register the middle field names.
    pub fn get_r32(&mut self, modrm: &ModRM) -> (r: u32)
        requires
            modrm.or.value() < 8,
        ensures
            r == old(self)@.r32(*modrm),
            *final(self) == *old(self),
    {
        self.get_register32(modrm.or.unwrap() as usize)
    }

    pub fn set_r8(&mut self, modrm: &ModRM, value: u8)
        requires
            modrm.or.value() < 8,
        ensures
            final(self)@ == old(self)@.set_r8(*modrm, value),
    {
        self.set_register8(modrm.or.unwrap() as usize, value);
    }

    pub fn set_rm8(&mut self, modrm: &ModRM, value: u8)
        requires
            modrm.wf(),
            old(self)@.rm_fault(*modrm, 1) is None,
        ensures
            final(self)@ == old(self)@.set_rm8(*modrm, value),
    {
        if modrm.mod_byte == 3 {
            self.set_register8(modrm.rm as usize, value);
        } else {
            let addr: u32 = self.calc_memory_address(modrm);
            self.set_memory8(addr, value as u32);
        }
    }

    pub fn set_rm32(&mut self, modrm: &ModRM, value: u32)
        requires
            modrm.wf(),
            old(self)@.rm_fault(*modrm, 4) is None,
        ensures
            final(self)@ == old(self)@.set_rm32(*modrm, value),
    {
        if modrm.mod_byte == 3 {
            self.set_register32(modrm.rm as usize, value);
        } else {
            let addr: u32 = self.calc_memory_address(modrm);
            self.set_memory32(addr, value);
        }
    }

    pub fn set_r32(&mut self, modrm: &ModRM, value: u32)
        requires
            modrm.or.value() < 8,
        ensures
            final(self)@ == old(self)@.set_r32(*modrm, value),
    {
        self.set_register32(modrm.or.unwrap() as usize, value);
    }
}

/// A register operand never touches memory, and what is written to an
/// operand is what is read from it afterwards: for a register operand and
/// for every memory operand that can be accessed.
pub proof fn lemma_set_get_rm32(m: Machine, modrm: ModRM, value: u32)
    requires
        m.wf(),
        modrm.wf(),
        m.rm_fault(modrm, 4) is None,
    ensures
        modrm.mod_byte == 3 ==> m.set_rm32(modrm, value).mem == m.mem,
        m.set_rm32(modrm, value).rm_fault(modrm, 4) is None,
        m.set_rm32(modrm, value).rm32(modrm) == value,
{
    if modrm.mod_byte != 3 {
        lemma_read_after_write(m, m.effective_address(modrm) as int, value);
    }
}

/// With mod 0 and rm 5 the four bytes behind the ModRM byte are the
/// operand's address itself: decoding takes them as the displacement, and
/// the effective address is that displacement on every machine, whatever
/// its registers hold.
pub proof fn lemma_absolute_address(m: Machine, other: Machine)
    requires
        m.code_fault(0, 1) is None,
        m.advance(1).code_fault(0, 4) is None,
        m.code8(0) / 64 == 0,
        m.code8(0) % 8 == 5,
    ensures
        decode_modrm(m) is Ok,
        decode_modrm(m).unwrap().0.disp == Disp::Disp32(m.advance(1).code32(0)),
        decode_modrm(m).unwrap().1 == m.advance(1).advance(4),
        other.effective_address(decode_modrm(m).unwrap().0) == m.advance(1).code32(0),
{
}

} // verus!
