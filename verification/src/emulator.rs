//! Machine state: register file, flag register, memory and instruction
//! pointer, with the typed accessors every instruction is built from.
use vstd::prelude::*;

pub mod bios;
pub mod bits;
pub mod cycle;
pub mod dump;
pub mod instruction;
pub mod io;
pub mod machine;
pub mod modrm;
pub mod semantics;

use crate::emulator::bits::{
    lemma_bytes_of_word, lemma_high_byte, lemma_low_byte, lemma_sign_extend8, lemma_signed32,
    lemma_word_of_bytes, signed32, signed8,
};
use crate::emulator::machine::{sub_flags, Machine};

verus! {

/// Size of the zero-filled low-memory region that precedes a loaded program.
pub const ORG: usize = 0x7C00;

/// Mask of the carry flag (bit 0).
pub const CARRY_FLAG: u32 = 0x001;

/// Mask of the zero flag (bit 6).
pub const ZERO_FLAG: u32 = 0x040;

/// Mask of the sign flag (bit 7).
pub const SIGN_FLAG: u32 = 0x080;

/// Mask of the overflow flag (bit 11).
pub const OVERFLOW_FLAG: u32 = 0x800;

/// What the caller wants traced while a program runs. `quiet` wins over
/// `verbose`; with neither set the default trace is made.
#[derive(Debug, Clone, Copy, PartialEq, Eq)]
pub struct RunFlags {
    pub verbose: bool,
    pub quiet: bool,
}

/// How much of a run is traced.
#[derive(Debug, Clone, Copy, PartialEq, Eq)]
pub enum TraceMode {
    /// Nothing but what stops the run.
    Quiet,
    /// Address and opcode of every instruction fetched.
    Default,
    /// Also the name of every instruction executed and the registers after
    /// it.
    Verbose,
}

impl RunFlags {
    pub open spec fn spec_mode(self) -> TraceMode {
        if self.quiet {
            TraceMode::Quiet
        } else if self.verbose {
            TraceMode::Verbose
        } else {
            TraceMode::Default
        }
    }

    /// The trace mode these flags select.
    pub fn mode(&self) -> (mode: TraceMode)
        ensures
            mode == self.spec_mode(),
    {
        if self.quiet {
            TraceMode::Quiet
        } else if self.verbose {
            TraceMode::Verbose
        } else {
            TraceMode::Default
        }
    }
}

/// The general-purpose registers, in the order the instruction encoding
/// numbers them. `RegistersCount` is the size of the register file.
#[derive(Debug, Clone, Copy, PartialEq, Eq)]
pub enum Register {
    EAX,
    ECX,
    EDX,
    EBX,
    ESP,
    EBP,
    ESI,
    EDI,
    RegistersCount,
}

/// The low bytes of the first four registers.
#[derive(Debug, Clone, Copy, PartialEq, Eq)]
pub enum RegisterLow {
    AL,
    CL,
    DL,
    BL,
}

/// The second-lowest bytes of the first four registers.
#[derive(Debug, Clone, Copy, PartialEq, Eq)]
pub enum RegisterHigh {
    AH,
    CH,
    DH,
    BH,
}

impl Register {
    /// Position in the register file; 8 for `RegistersCount`.
    pub open spec fn spec_index(self) -> int {
        match self {
            Register::EAX => 0,
            Register::ECX => 1,
            Register::EDX => 2,
            Register::EBX => 3,
            Register::ESP => 4,
            Register::EBP => 5,
            Register::ESI => 6,
            Register::EDI => 7,
            Register::RegistersCount => 8,
        }
    }

    pub fn index(self) -> (i: usize)
        ensures
            i == self.spec_index(),
    {
        match self {
            Register::EAX => 0,
            Register::ECX => 1,
            Register::EDX => 2,
            Register::EBX => 3,
            Register::ESP => 4,
            Register::EBP => 5,
            Register::ESI => 6,
            Register::EDI => 7,
            Register::RegistersCount => 8,
        }
    }

    pub open spec fn spec_name(self) -> Seq<char> {
        match self {
            Register::EAX => "EAX"@,
            Register::ECX => "ECX"@,
            Register::EDX => "EDX"@,
            Register::EBX => "EBX"@,
            Register::ESP => "ESP"@,
            Register::EBP => "EBP"@,
            Register::ESI => "ESI"@,
            Register::EDI => "EDI"@,
            Register::RegistersCount => "RegistersCount"@,
        }
    }

    /// The register's name as it is written in assembly listings.
    pub fn to_string(&self) -> (s: String)
        ensures
            s@ == self.spec_name(),
    {
        match self {
            Register::EAX => "EAX".to_owned(),
            Register::ECX => "ECX".to_owned(),
            Register::EDX => "EDX".to_owned(),
            Register::EBX => "EBX".to_owned(),
            Register::ESP => "ESP".to_owned(),
            Register::EBP => "EBP".to_owned(),
            Register::ESI => "ESI".to_owned(),
            Register::EDI => "EDI".to_owned(),
            Register::RegistersCount => "RegistersCount".to_owned(),
        }
    }
}

impl RegisterLow {
    /// 8-bit register index: 0 to 3.
    pub open spec fn spec_index(self) -> int {
        match self {
            RegisterLow::AL => 0,
            RegisterLow::CL => 1,
            RegisterLow::DL => 2,
            RegisterLow::BL => 3,
        }
    }

    pub fn index(self) -> (i: usize)
        ensures
            i == self.spec_index(),
    {
        match self {
            RegisterLow::AL => 0,
            RegisterLow::CL => 1,
            RegisterLow::DL => 2,
            RegisterLow::BL => 3,
        }
    }
}

impl RegisterHigh {
    /// 8-bit register index: 4 to 7, four above the matching low byte.
    pub open spec fn spec_index(self) -> int {
        match self {
            RegisterHigh::AH => 4,
            RegisterHigh::CH => 5,
            RegisterHigh::DH => 6,
            RegisterHigh::BH => 7,
        }
    }

    pub fn index(self) -> (i: usize)
        ensures
            i == self.spec_index(),
    {
        match self {
            RegisterHigh::AH => 4,
            RegisterHigh::CH => 5,
            RegisterHigh::DH => 6,
            RegisterHigh::BH => 7,
        }
    }
}

/// A fatal condition: the instruction at `eip` cannot be carried out. The
/// machine is left exactly as it was before the instruction.
#[derive(Debug, Clone, Copy, PartialEq, Eq)]
pub enum Fault {
    /// The operand needs a SIB byte or another form that is not decoded.
    UnimplementedAddressing { mod_byte: u8, rm: u8 },
    /// A group opcode met a selector without a defined operation.
    UnimplementedGroup { opcode: u8, selector: u8 },
    /// An access starting at `addr` does not lie inside memory.
    OutOfBounds { addr: u64 },
    /// The serial port was read while no input was pending.
    NoInput,
}

/// What an instruction that completed wants reported; none of it stops the run.
#[derive(Debug, Clone, Copy, PartialEq, Eq)]
pub enum Notice {
    Silent,
    /// `int n` with a vector other than 0x10.
    UnknownInterrupt(u8),
    /// `int 0x10` with a function (AH) other than teletype output.
    UnimplementedBios(u8),
}

/// The four flags a subtraction produces.
pub struct FlagBits {
    pub carry: bool,
    pub zero: bool,
    pub sign: bool,
    pub overflow: bool,
}

/// `raw` with the bits of `mask` set or cleared.
pub open spec fn with_flag(raw: u32, mask: u32, on: bool) -> u32 {
    if on {
        raw | mask
    } else {
        raw & !mask
    }
}

/// Setting or clearing one of the four flag bits fixes that bit and leaves
/// the other three as they were.
pub proof fn lemma_flag_masks(raw: u32)
    by (bit_vector)
    ensures
        (raw | 0x001) & 0x001 != 0,
        (raw & !0x001u32) & 0x001 == 0,
        (raw | 0x001) & 0x040 == raw & 0x040,
        (raw & !0x001u32) & 0x040 == raw & 0x040,
        (raw | 0x001) & 0x080 == raw & 0x080,
        (raw & !0x001u32) & 0x080 == raw & 0x080,
        (raw | 0x001) & 0x800 == raw & 0x800,
        (raw & !0x001u32) & 0x800 == raw & 0x800,
        (raw | 0x040) & 0x040 != 0,
        (raw & !0x040u32) & 0x040 == 0,
        (raw | 0x040) & 0x001 == raw & 0x001,
        (raw & !0x040u32) & 0x001 == raw & 0x001,
        (raw | 0x040) & 0x080 == raw & 0x080,
        (raw & !0x040u32) & 0x080 == raw & 0x080,
        (raw | 0x040) & 0x800 == raw & 0x800,
        (raw & !0x040u32) & 0x800 == raw & 0x800,
        (raw | 0x080) & 0x080 != 0,
        (raw & !0x080u32) & 0x080 == 0,
        (raw | 0x080) & 0x001 == raw & 0x001,
        (raw & !0x080u32) & 0x001 == raw & 0x001,
        (raw | 0x080) & 0x040 == raw & 0x040,
        (raw & !0x080u32) & 0x040 == raw & 0x040,
        (raw | 0x080) & 0x800 == raw & 0x800,
        (raw & !0x080u32) & 0x800 == raw & 0x800,
        (raw | 0x800) & 0x800 != 0,
        (raw & !0x800u32) & 0x800 == 0,
        (raw | 0x800) & 0x001 == raw & 0x001,
        (raw & !0x800u32) & 0x001 == raw & 0x001,
        (raw | 0x800) & 0x040 == raw & 0x040,
        (raw & !0x800u32) & 0x040 == raw & 0x040,
        (raw | 0x800) & 0x080 == raw & 0x080,
        (raw & !0x800u32) & 0x080 == raw & 0x080,
{
}

/// The processor's flag register. Only four bits carry meaning: carry (bit 0),
/// zero (bit 6), sign (bit 7) and overflow (bit 11).
#[derive(Debug, Clone)]
pub struct Eflags {
    pub raw: u32,
}

impl View for Eflags {
    type V = FlagBits;

    open spec fn view(&self) -> FlagBits {
        flag_bits(self.raw)
    }
}

/// The four flags held in a raw flag word.
pub open spec fn flag_bits(raw: u32) -> FlagBits {
    FlagBits {
        carry: raw & CARRY_FLAG != 0,
        zero: raw & ZERO_FLAG != 0,
        sign: raw & SIGN_FLAG != 0,
        overflow: raw & OVERFLOW_FLAG != 0,
    }
}

impl Eflags {
    pub fn set_carry(&mut self, is_carry: bool)
        ensures
            final(self).raw == with_flag(old(self).raw, CARRY_FLAG, is_carry),
            final(self)@ == (FlagBits { carry: is_carry, ..old(self)@ }),
    {
        proof {
            lemma_flag_masks(self.raw);
        }
        if is_carry {
            self.raw = self.raw | CARRY_FLAG;
        } else {
            self.raw = self.raw & !CARRY_FLAG;
        }
    }

    pub fn set_zero(&mut self, is_zero: bool)
        ensures
            final(self).raw == with_flag(old(self).raw, ZERO_FLAG, is_zero),
            final(self)@ == (FlagBits { zero: is_zero, ..old(self)@ }),
    {
        proof {
            lemma_flag_masks(self.raw);
        }
        if is_zero {
            self.raw = self.raw | ZERO_FLAG;
        } else {
            self.raw = self.raw & !ZERO_FLAG;
        }
    }

    pub fn set_sign(&mut self, is_sign: bool)
        ensures
            final(self).raw == with_flag(old(self).raw, SIGN_FLAG, is_sign),
            final(self)@ == (FlagBits { sign: is_sign, ..old(self)@ }),
    {
        proof {
            lemma_flag_masks(self.raw);
        }
        if is_sign {
            self.raw = self.raw | SIGN_FLAG;
        } else {
            self.raw = self.raw & !SIGN_FLAG;
        }
    }

    pub fn set_overflow(&mut self, is_overflow: bool)
        ensures
            final(self).raw == with_flag(old(self).raw, OVERFLOW_FLAG, is_overflow),
            final(self)@ == (FlagBits { overflow: is_overflow, ..old(self)@ }),
    {
        proof {
            lemma_flag_masks(self.raw);
        }
        if is_overflow {
            self.raw = self.raw | OVERFLOW_FLAG;
        } else {
            self.raw = self.raw & !OVERFLOW_FLAG;
        }
    }

    pub fn is_carry(&self) -> (r: bool)
        ensures
            r == self@.carry,
    {
        self.raw & CARRY_FLAG != 0
    }

    pub fn is_zero(&self) -> (r: bool)
        ensures
            r == self@.zero,
    {
        self.raw & ZERO_FLAG != 0
    }

    pub fn is_sign(&self) -> (r: bool)
        ensures
            r == self@.sign,
    {
        self.raw & SIGN_FLAG != 0
    }

    pub fn is_overflow(&self) -> (r: bool)
        ensures
            r == self@.overflow,
    {
        self.raw & OVERFLOW_FLAG != 0
    }
}

/// The interpreter's state. All of it is public: a machine is built by
/// `new` and `load`, or written out field by field.
#[derive(Debug, Clone)]
pub struct Emulator {
    pub registers: [u32; 8],
    pub eflags: Eflags,
    pub memory: Vec<u8>,
    pub eip: u32,
}

impl View for Emulator {
    type V = Machine;

    open spec fn view(&self) -> Machine {
        Machine {
            regs: self.registers@,
            flags: self.eflags.raw,
            mem: self.memory@,
            eip: self.eip,
        }
    }
}

/// What a shift-and-mask reading of a 64-bit difference says of it.
proof fn lemma_wide_result(v1: u32, v2: u32, result: u64)
    by (bit_vector)
    ensures
        (result >> 32 != 0) == (result >= 0x1_0000_0000),
        ((result & 0xFFFF_FFFF) == 0) == (result % 0x1_0000_0000 == 0),
        ((result >> 31) & 1 != 0) == (result % 0x1_0000_0000 >= 0x8000_0000),
        (v1 >> 31 != 0) == (v1 >= 0x8000_0000),
        (v2 >> 31 != 0) == (v2 >= 0x8000_0000),
{
}

impl Emulator {
    /// Memory is never longer than an index can reach.
    proof fn lemma_memory_len(&self)
        ensures
            self@.mem.len() <= usize::MAX,
    {
        assert(self.memory@.len() == self.memory.len());
    }

    /// A machine with empty memory, room reserved for the low-memory region
    /// and `size` bytes of program, and all registers zero but the stack
    /// pointer.
    pub fn new(size: usize, eip: u32, esp: u32) -> (emu: Emulator)
        requires
            size + ORG <= isize::MAX,
        ensures
            emu@ == (Machine {
                regs: seq![0u32, 0u32, 0u32, 0u32, esp, 0u32, 0u32, 0u32],
                flags: 0,
                mem: Seq::<u8>::empty(),
                eip,
            }),
    {
        let emu = Emulator {
            registers: [0, 0, 0, 0, esp, 0, 0, 0],
            eflags: Eflags { raw: 0 },
            memory: Vec::with_capacity(ORG + size),
            eip,
        };
        assert(emu.registers@ =~= seq![0u32, 0u32, 0u32, 0u32, esp, 0u32, 0u32, 0u32]);
        emu
    }

    /// Appends the zero-filled low-memory region and then the program image,
    /// which is left empty.
    pub fn load(&mut self, image: &mut Vec<u8>)
        ensures
            final(self)@ == (Machine {
                mem: old(self)@.mem + Seq::new(ORG as nat, |i: int| 0u8) + old(image)@,
                ..old(self)@
            }),
            final(image)@ == Seq::<u8>::empty(),
    {
        let mut bios: Vec<u8> = vec![0u8; ORG];
        assert(bios@ =~= Seq::new(ORG as nat, |i: int| 0u8));
        self.memory.append(&mut bios);
        self.raw_load(image);
    }

    /// Appends `bytes` to memory and leaves `bytes` empty.
    pub fn raw_load(&mut self, bytes: &mut Vec<u8>)
        ensures
            final(self)@ == (Machine { mem: old(self)@.mem + old(bytes)@, ..old(self)@ }),
            final(bytes)@ == Seq::<u8>::empty(),
    {
        self.memory.append(bytes);
    }

    /// Stores the low byte of `value` at `addr`.
    pub fn set_memory8(&mut self, addr: u32, value: u32)
        requires
            old(self)@.in_bounds(addr as int, 1),
        ensures
            final(self)@ == old(self)@.write8(addr as int, (value % 0x100) as u8),
    {
        proof {
            lemma_bytes_of_word(value);
        }
        self.memory[addr as usize] = (value & 0xFF) as u8;
    }

    pub fn get_memory8(&self, addr: u32) -> (r: u8)
        requires
            self@.in_bounds(addr as int, 1),
        ensures
            r == self@.read8(addr as int),
    {
        self.memory[addr as usize]
    }

    /// Stores `value` in the four bytes at `addr`, least significant first.
    pub fn set_memory32(&mut self, addr: u32, value: u32)
        requires
            old(self)@.in_bounds(addr as int, 4),
        ensures
            final(self)@ == old(self)@.write32(addr as int, value),
    {
        proof {
            lemma_bytes_of_word(value);
            self.lemma_memory_len();
        }
        let base: usize = addr as usize;
        self.memory[base] = (value & 0xFF) as u8;
        self.memory[base + 1] = ((value >> 8) & 0xFF) as u8;
        self.memory[base + 2] = ((value >> 16) & 0xFF) as u8;
        self.memory[base + 3] = ((value >> 24) & 0xFF) as u8;
        assert(self@.mem =~= old(self)@.write32(addr as int, value).mem);
    }

    /// The little-endian word in the four bytes at `addr`.
    pub fn get_memory32(&self, addr: u32) -> (r: u32)
        requires
            self@.in_bounds(addr as int, 4),
        ensures
            r == self@.read32(addr as int),
    {
        proof {
            self.lemma_memory_len();
        }
        let base: usize = addr as usize;
        let b0: u8 = self.memory[base];
        let b1: u8 = self.memory[base + 1];
        let b2: u8 = self.memory[base + 2];
        let b3: u8 = self.memory[base + 3];
        proof {
            lemma_word_of_bytes(b0, b1, b2, b3);
        }
        (b0 as u32) | ((b1 as u32) << 8) | ((b2 as u32) << 16) | ((b3 as u32) << 24)
    }

    /// The instruction byte `index` bytes after the instruction pointer.
    pub fn get_code8(&self, index: u32) -> (r: u8)
        requires
            self@.in_bounds(self.eip + index, 1),
        ensures
            r == self@.code8(index as int),
    {
        proof {
            self.lemma_memory_len();
        }
        self.memory[self.eip as usize + index as usize]
    }

    /// The same byte read as a two's-complement number.
    pub fn get_sign_code8(&self, index: u32) -> (r: i8)
        requires
            self@.in_bounds(self.eip + index, 1),
        ensures
            r == signed8(self@.code8(index as int)),
    {
        proof {
            self.lemma_memory_len();
        }
        let b: u8 = self.memory[self.eip as usize + index as usize];
        proof {
            lemma_sign_extend8(b);
        }
        #[verifier::truncate]
        (b as i8)
    }

    /// The little-endian word `index` bytes after the instruction pointer.
    pub fn get_code32(&self, index: u32) -> (r: u32)
        requires
            self@.in_bounds(self.eip + index, 4),
        ensures
            r == self@.code32(index as int),
    {
        proof {
            self.lemma_memory_len();
        }
        let base: usize = self.eip as usize + index as usize;
        let b0: u8 = self.memory[base];
        let b1: u8 = self.memory[base + 1];
        let b2: u8 = self.memory[base + 2];
        let b3: u8 = self.memory[base + 3];
        proof {
            lemma_word_of_bytes(b0, b1, b2, b3);
        }
        (b0 as u32) | ((b1 as u32) << 8) | ((b2 as u32) << 16) | ((b3 as u32) << 24)
    }

    /// The same word read as a two's-complement number.
    pub fn get_sign_code32(&self, index: u32) -> (r: i32)
        requires
            self@.in_bounds(self.eip + index, 4),
        ensures
            r == signed32(self@.code32(index as int)),
    {
        let v: u32 = self.get_code32(index);
        proof {
            lemma_signed32(v);
        }
        #[verifier::truncate]
        (v as i32)
    }

    /// Replaces one byte of a register: the low byte of register `index` for
    /// 0 to 3, the second byte of register `index - 4` for 4 to 7.
    pub fn set_register8(&mut self, index: usize, value: u8)
        requires
            index < 8,
        ensures
            final(self)@ == old(self)@.set_reg8(index as int, value),
    {
        if index < 4 {
            let r: u32 = self.registers[index] & 0xFFFF_FF00;
            proof {
                lemma_low_byte(self.registers[index as int], value);
            }
            self.registers[index] = r | value as u32;
        } else {
            let r: u32 = self.registers[index - 4] & 0xFFFF_00FF;
            proof {
                lemma_high_byte(self.registers[index - 4], value);
            }
            self.registers[index - 4] = r | ((value as u32) << 8);
        }
    }

    pub fn set_register32(&mut self, index: usize, value: u32)
        requires
            index < 8,
        ensures
            final(self)@ == old(self)@.set_reg32(index as int, value),
    {
        self.registers[index] = value;
    }

    /// Reads the byte that `set_register8` writes.
    pub fn get_register8(&self, index: usize) -> (r: u8)
        requires
            index < 8,
        ensures
            r == self@.reg8(index as int),
    {
        if index < 4 {
            proof {
                lemma_bytes_of_word(self.registers[index as int]);
            }
            (self.registers[index] & 0xFF) as u8
        } else {
            proof {
                lemma_bytes_of_word(self.registers[index - 4]);
            }
            ((self.registers[index - 4] >> 8) & 0xFF) as u8
        }
    }

    pub fn get_register32(&self, index: usize) -> (r: u32)
        requires
            index < 8,
        ensures
            r == self@.reg32(index as int),
    {
        self.registers[index]
    }

    /// Lowers the stack pointer by 4 and stores `value` at the new top.
    pub fn push32(&mut self, value: u32)
        requires
            old(self)@.push_fault() is None,
        ensures
            final(self)@ == old(self)@.push(value),
    {
        let addr: u32 = self.get_register32(4) - 4;
        self.set_register32(4, addr);
        self.set_memory32(addr, value);
    }

    /// Returns the word at the top of the stack and raises the stack pointer
    /// by 4.
    pub fn pop32(&mut self) -> (r: u32)
        requires
            old(self)@.pop_fault() is None,
        ensures
            r == old(self)@.top(),
            final(self)@ == old(self)@.pop(),
    {
        let addr: u32 = self.get_register32(4);
        let ret: u32 = self.get_memory32(addr);
        self.set_register32(4, addr.wrapping_add(4));
        ret
    }

    /// Sets the four flags from a subtraction `v1 - v2` whose result,
    /// computed wider than 32 bits, is `result`.
    pub fn update_eflags_sub(&mut self, v1: u32, v2: u32, result: u64)
        ensures
            final(self)@ == (Machine {
                flags: sub_flags(old(self)@.flags, v1, v2, result),
                ..old(self)@
            }),
    {
        proof {
            lemma_wide_result(v1, v2, result);
        }
        let sign1: bool = v1 >> 31 != 0;
        let sign2: bool = v2 >> 31 != 0;
        let signr: bool = (result >> 31) & 1 != 0;
        self.eflags.set_carry(result >> 32 != 0);
        self.eflags.set_zero(result & 0xFFFF_FFFF == 0);
        self.eflags.set_sign(signr);
        self.eflags.set_overflow(sign1 != sign2 && sign1 != signr);
    }
}

} // verus!
