//! The instruction set: the opcode table and one handler per opcode or
//! opcode group.
//!
//! Every handler reads its operands at the instruction pointer, performs its
//! effect and moves the pointer past the bytes it consumed. A handler that
//! meets a fault returns it and leaves the machine as it found it.
use vstd::prelude::*;

use crate::emulator::bits::{
    displaced, extend8, lemma_low_bits, lemma_low_word, opcode_register, sign_extend8,
    wide_difference, widen8, zero_extend8,
};
use crate::emulator::io::{io_in8, io_out8, Console, ConsoleState};
use crate::emulator::machine::{sub_flags, wide_sub, Machine};
use crate::emulator::modrm::{decode_modrm, ModRM};
use crate::emulator::semantics;
use crate::emulator::semantics::{outcome, quiet, Effect};
use crate::emulator::{flag_bits, Emulator, Fault, Notice};

verus! {

/// The operations the interpreter knows, one for each entry of the opcode
/// table.
#[derive(Debug, Clone, Copy, PartialEq, Eq)]
pub enum Instruction {
    AddRm32R32,
    CompareR32Rm32,
    CompareAlImm8,
    CompareEaxImm32,
    IncR32,
    PushR32,
    PopR32,
    PushImm32,
    PushImm8,
    JumpOverflow,
    JumpNotOverflow,
    JumpCarry,
    JumpNotCarry,
    JumpZero,
    JumpNotZero,
    JumpSign,
    JumpNotSign,
    JumpLess,
    JumpLessOrEq,
    Code83,
    MovRm8R8,
    MovRm32R32,
    MovR8Rm8,
    MovR32Rm32,
    MovR8Imm8,
    MovR32Imm32,
    Ret,
    MovRm32Imm32,
    Leave,
    Int,
    CallRel32,
    NearJump,
    ShortJump,
    InAlDx,
    OutDxAl,
    CodeFf,
}

/// The opcode table: the operation of each opcode byte that has one.
pub open spec fn decode(code: u8) -> Option<Instruction> {
    if code == 0x01 {
        Some(Instruction::AddRm32R32)
    } else if code == 0x3B {
        Some(Instruction::CompareR32Rm32)
    } else if code == 0x3C {
        Some(Instruction::CompareAlImm8)
    } else if code == 0x3D {
        Some(Instruction::CompareEaxImm32)
    } else if 0x40 <= code <= 0x47 {
        Some(Instruction::IncR32)
    } else if 0x50 <= code <= 0x57 {
        Some(Instruction::PushR32)
    } else if 0x58 <= code <= 0x5F {
        Some(Instruction::PopR32)
    } else if code == 0x68 {
        Some(Instruction::PushImm32)
    } else if code == 0x6A {
        Some(Instruction::PushImm8)
    } else if code == 0x70 {
        Some(Instruction::JumpOverflow)
    } else if code == 0x71 {
        Some(Instruction::JumpNotOverflow)
    } else if code == 0x72 {
        Some(Instruction::JumpCarry)
    } else if code == 0x73 {
        Some(Instruction::JumpNotCarry)
    } else if code == 0x74 {
        Some(Instruction::JumpZero)
    } else if code == 0x75 {
        Some(Instruction::JumpNotZero)
    } else if code == 0x78 {
        Some(Instruction::JumpSign)
    } else if code == 0x79 {
        Some(Instruction::JumpNotSign)
    } else if code == 0x7C {
        Some(Instruction::JumpLess)
    } else if code == 0x7E {
        Some(Instruction::JumpLessOrEq)
    } else if code == 0x83 {
        Some(Instruction::Code83)
    } else if code == 0x88 {
        Some(Instruction::MovRm8R8)
    } else if code == 0x89 {
        Some(Instruction::MovRm32R32)
    } else if code == 0x8A {
        Some(Instruction::MovR8Rm8)
    } else if code == 0x8B {
        Some(Instruction::MovR32Rm32)
    } else if 0xB0 <= code <= 0xB7 {
        Some(Instruction::MovR8Imm8)
    } else if 0xB8 <= code <= 0xBE {
        Some(Instruction::MovR32Imm32)
    } else if code == 0xC3 {
        Some(Instruction::Ret)
    } else if code == 0xC7 {
        Some(Instruction::MovRm32Imm32)
    } else if code == 0xC9 {
        Some(Instruction::Leave)
    } else if code == 0xCD {
        Some(Instruction::Int)
    } else if code == 0xE8 {
        Some(Instruction::CallRel32)
    } else if code == 0xE9 {
        Some(Instruction::NearJump)
    } else if code == 0xEB {
        Some(Instruction::ShortJump)
    } else if code == 0xEC {
        Some(Instruction::InAlDx)
    } else if code == 0xEE {
        Some(Instruction::OutDxAl)
    } else if code == 0xFF {
        Some(Instruction::CodeFf)
    } else {
        None
    }
}

impl Instruction {
    /// The operation's mnemonic.
    pub open spec fn spec_name(self) -> Seq<char> {
        match self {
            Instruction::AddRm32R32 => "add_rm32_r32"@,
            Instruction::CompareR32Rm32 => "cmp_r32_rm32"@,
            Instruction::CompareAlImm8 => "cmp_al_imm8"@,
            Instruction::CompareEaxImm32 => "cmp_eax_imm32"@,
            Instruction::IncR32 => "inc_r32"@,
            Instruction::PushR32 => "push_r32"@,
            Instruction::PopR32 => "pop_r32"@,
            Instruction::PushImm32 => "push_imm32"@,
            Instruction::PushImm8 => "push_imm8"@,
            Instruction::JumpOverflow => "jump_overflow"@,
            Instruction::JumpNotOverflow => "jump_not_overflow"@,
            Instruction::JumpCarry => "jump_carry"@,
            Instruction::JumpNotCarry => "jump_not_carry"@,
            Instruction::JumpZero => "jump_zero"@,
            Instruction::JumpNotZero => "jump_not_zero"@,
            Instruction::JumpSign => "jump_sign"@,
            Instruction::JumpNotSign => "jump_not_sign"@,
            Instruction::JumpLess => "jump_less"@,
            Instruction::JumpLessOrEq => "jump_less_or_eq"@,
            Instruction::Code83 => "code_83"@,
            Instruction::MovRm8R8 => "mov_rm8_r8"@,
            Instruction::MovRm32R32 => "mov_rm32_r32"@,
            Instruction::MovR8Rm8 => "mov_r8_rm8"@,
            Instruction::MovR32Rm32 => "mov_r32_rm32"@,
            Instruction::MovR8Imm8 => "mov_r8_imm8"@,
            Instruction::MovR32Imm32 => "mov_r32_imm32"@,
            Instruction::Ret => "ret"@,
            Instruction::MovRm32Imm32 => "mov_rm32_imm32"@,
            Instruction::Leave => "leave"@,
            Instruction::Int => "int"@,
            Instruction::CallRel32 => "call_rel32"@,
            Instruction::NearJump => "near_jump"@,
            Instruction::ShortJump => "short_jump"@,
            Instruction::InAlDx => "in_al_dx"@,
            Instruction::OutDxAl => "out_dx_al"@,
            Instruction::CodeFf => "code_ff"@,
        }
    }

    /// The operation's mnemonic.
    pub fn name(&self) -> (s: &'static str)
        ensures
            s@ == self.spec_name(),
    {
        match self {
            Instruction::AddRm32R32 => "add_rm32_r32",
            Instruction::CompareR32Rm32 => "cmp_r32_rm32",
            Instruction::CompareAlImm8 => "cmp_al_imm8",
            Instruction::CompareEaxImm32 => "cmp_eax_imm32",
            Instruction::IncR32 => "inc_r32",
            Instruction::PushR32 => "push_r32",
            Instruction::PopR32 => "pop_r32",
            Instruction::PushImm32 => "push_imm32",
            Instruction::PushImm8 => "push_imm8",
            Instruction::JumpOverflow => "jump_overflow",
            Instruction::JumpNotOverflow => "jump_not_overflow",
            Instruction::JumpCarry => "jump_carry",
            Instruction::JumpNotCarry => "jump_not_carry",
            Instruction::JumpZero => "jump_zero",
            Instruction::JumpNotZero => "jump_not_zero",
            Instruction::JumpSign => "jump_sign",
            Instruction::JumpNotSign => "jump_not_sign",
            Instruction::JumpLess => "jump_less",
            Instruction::JumpLessOrEq => "jump_less_or_eq",
            Instruction::Code83 => "code_83",
            Instruction::MovRm8R8 => "mov_rm8_r8",
            Instruction::MovRm32R32 => "mov_rm32_r32",
            Instruction::MovR8Rm8 => "mov_r8_rm8",
            Instruction::MovR32Rm32 => "mov_r32_rm32",
            Instruction::MovR8Imm8 => "mov_r8_imm8",
            Instruction::MovR32Imm32 => "mov_r32_imm32",
            Instruction::Ret => "ret",
            Instruction::MovRm32Imm32 => "mov_rm32_imm32",
            Instruction::Leave => "leave",
            Instruction::Int => "int",
            Instruction::CallRel32 => "call_rel32",
            Instruction::NearJump => "near_jump",
            Instruction::ShortJump => "short_jump",
            Instruction::InAlDx => "in_al_dx",
            Instruction::OutDxAl => "out_dx_al",
            Instruction::CodeFf => "code_ff",
        }
    }
}

/// The name shown for an opcode: the operation's mnemonic, or `None` for an
/// opcode without one.
pub open spec fn mnemonic(inst: Option<Instruction>) -> Seq<char> {
    match inst {
        Some(i) => i.spec_name(),
        None => "None"@,
    }
}

/// The meaning of `inst` on machine `m` with console `c`, the bytes at the
/// instruction pointer taken as its encoding.
pub open spec fn execute_spec(m: Machine, c: ConsoleState, inst: Instruction) -> Result<
    Effect,
    Fault,
> {
    match inst {
        Instruction::AddRm32R32 => quiet(semantics::add_rm32_r32(m), c),
        Instruction::CompareR32Rm32 => quiet(semantics::compare_r32_rm32(m), c),
        Instruction::CompareAlImm8 => quiet(semantics::compare_al_imm8(m), c),
        Instruction::CompareEaxImm32 => quiet(semantics::compare_eax_imm32(m), c),
        Instruction::IncR32 => quiet(semantics::inc_r32(m), c),
        Instruction::PushR32 => quiet(semantics::push_r32(m), c),
        Instruction::PopR32 => quiet(semantics::pop_r32(m), c),
        Instruction::PushImm32 => quiet(semantics::push_imm32(m), c),
        Instruction::PushImm8 => quiet(semantics::push_imm8(m), c),
        Instruction::JumpOverflow => quiet(semantics::jump_if(m, flag_bits(m.flags).overflow), c),
        Instruction::JumpNotOverflow => quiet(
            semantics::jump_if(m, !flag_bits(m.flags).overflow),
            c,
        ),
        Instruction::JumpCarry => quiet(semantics::jump_if(m, flag_bits(m.flags).carry), c),
        Instruction::JumpNotCarry => quiet(semantics::jump_if(m, !flag_bits(m.flags).carry), c),
        Instruction::JumpZero => quiet(semantics::jump_if(m, flag_bits(m.flags).zero), c),
        Instruction::JumpNotZero => quiet(semantics::jump_if(m, !flag_bits(m.flags).zero), c),
        Instruction::JumpSign => quiet(semantics::jump_if(m, flag_bits(m.flags).sign), c),
        Instruction::JumpNotSign => quiet(semantics::jump_if(m, !flag_bits(m.flags).sign), c),
        Instruction::JumpLess => quiet(semantics::jump_if(m, semantics::less(flag_bits(m.flags))), c),
        Instruction::JumpLessOrEq => quiet(
            semantics::jump_if(
                m,
                flag_bits(m.flags).zero || semantics::less(flag_bits(m.flags)),
            ),
            c,
        ),
        Instruction::Code83 => quiet(semantics::code_83(m), c),
        Instruction::MovRm8R8 => quiet(semantics::mov_rm8_r8(m), c),
        Instruction::MovRm32R32 => quiet(semantics::mov_rm32_r32(m), c),
        Instruction::MovR8Rm8 => quiet(semantics::mov_r8_rm8(m), c),
        Instruction::MovR32Rm32 => quiet(semantics::mov_r32_rm32(m), c),
        Instruction::MovR8Imm8 => quiet(semantics::mov_r8_imm8(m), c),
        Instruction::MovR32Imm32 => quiet(semantics::mov_r32_imm32(m), c),
        Instruction::Ret => quiet(semantics::ret(m), c),
        Instruction::MovRm32Imm32 => quiet(semantics::mov_rm32_imm32(m), c),
        Instruction::Leave => quiet(semantics::leave(m), c),
        Instruction::Int => semantics::interrupt(m, c),
        Instruction::CallRel32 => quiet(semantics::call_rel32(m), c),
        Instruction::NearJump => quiet(semantics::near_jump(m), c),
        Instruction::ShortJump => quiet(semantics::short_jump(m), c),
        Instruction::InAlDx => semantics::in_al_dx(m, c),
        Instruction::OutDxAl => semantics::out_dx_al(m, c),
        Instruction::CodeFf => quiet(semantics::code_ff(m), c),
    }
}

/// The executable instruction did what `expected` says to machine and
/// console: on success both are the expected ones and the notice is
/// returned, on a fault both are unchanged.
pub open spec fn outcome_io(
    before: Machine,
    after: Machine,
    console_before: ConsoleState,
    console_after: ConsoleState,
    result: Result<Notice, Fault>,
    expected: Result<Effect, Fault>,
) -> bool {
    match expected {
        Ok(effect) => result == Ok::<Notice, Fault>(effect.notice) && after == effect.machine
            && console_after == effect.console,
        Err(f) => result == Err::<Notice, Fault>(f) && after == before && console_after
            == console_before,
    }
}

/// A completed instruction with nothing to report.
fn silent(r: Result<(), Fault>) -> (n: Result<Notice, Fault>)
    ensures
        match r {
            Ok(_) => n == Ok::<Notice, Fault>(Notice::Silent),
            Err(f) => n == Err::<Notice, Fault>(f),
        },
{
    match r {
        Ok(_) => Ok(Notice::Silent),
        Err(f) => Err(f),
    }
}

impl Emulator {
    /// Skips the opcode byte and decodes the operand descriptor behind it.
    /// On a fault nothing changes.
    fn fetch_modrm(&mut self) -> (r: Result<ModRM, Fault>)
        ensures
            match decode_modrm(old(self)@.advance(1)) {
                Ok((modrm, next)) => r == Ok::<ModRM, Fault>(modrm) && final(self)@ == next,
                Err(fault) => r == Err::<ModRM, Fault>(fault) && final(self)@ == old(self)@,
            },
            r is Ok ==> r.unwrap().wf(),
            final(self)@ == (Machine { eip: final(self)@.eip, ..old(self)@ }),
    {
        let start: u32 = self.eip;
        self.eip = self.eip.wrapping_add(1);
        match self.parse_modrm() {
            Ok(modrm) => Ok(modrm),
            Err(fault) => {
                self.eip = start;
                Err(fault)
            },
        }
    }

    /// The register that the opcode at the instruction pointer names.
    fn opcode_register(&self) -> (reg: usize)
        requires
            self@.code_fault(0, 1) is None,
        ensures
            reg == opcode_register(self@.code8(0)),
            reg < 8,
    {
        let code: u8 = self.get_code8(0);
        proof {
            lemma_low_bits(code);
        }
        (code & 0x07) as usize
    }

    /// `mov r32, imm32`.
    pub fn mov_r32_imm32(&mut self) -> (r: Result<(), Fault>)
        ensures
            outcome(old(self)@, final(self)@, r, semantics::mov_r32_imm32(old(self)@)),
    {
        if let Some(fault) = self.code_fault(0, 1) {
            return Err(fault);
        }
        if let Some(fault) = self.code_fault(1, 4) {
            return Err(fault);
        }
        let reg: usize = self.opcode_register();
        let value: u32 = self.get_code32(1);
        self.set_register32(reg, value);
        self.eip = self.eip.wrapping_add(5);
        Ok(())
    }

    /// `mov rm32, imm32`.
    #[verifier::rlimit(50)]
    pub fn mov_rm32_imm32(&mut self) -> (r: Result<(), Fault>)
        ensures
            outcome(old(self)@, final(self)@, r, semantics::mov_rm32_imm32(old(self)@)),
    {
        let start: u32 = self.eip;
        let modrm: ModRM = match self.fetch_modrm() {
            Ok(modrm) => modrm,
            Err(fault) => {
                return Err(fault);
            },
        };
        if let Some(fault) = self.code_fault(0, 4) {
            self.eip = start;
            return Err(fault);
        }
        let value: u32 = self.get_code32(0);
        if let Some(fault) = self.rm_fault(&modrm, 4) {
            self.eip = start;
            return Err(fault);
        }
        self.eip = self.eip.wrapping_add(4);
        self.set_rm32(&modrm, value);
        Ok(())
    }

    /// `mov rm32, r32`.
    pub fn mov_rm32_r32(&mut self) -> (r: Result<(), Fault>)
        ensures
            outcome(old(self)@, final(self)@, r, semantics::mov_rm32_r32(old(self)@)),
    {
        let start: u32 = self.eip;
        let modrm: ModRM = match self.fetch_modrm() {
            Ok(modrm) => modrm,
            Err(fault) => {
                return Err(fault);
            },
        };
        if let Some(fault) = self.rm_fault(&modrm, 4) {
            self.eip = start;
            return Err(fault);
        }
        let r32: u32 = self.get_r32(&modrm);
        self.set_rm32(&modrm, r32);
        Ok(())
    }

    /// `mov r32, rm32`.
    pub fn mov_r32_rm32(&mut self) -> (r: Result<(), Fault>)
        ensures
            outcome(old(self)@, final(self)@, r, semantics::mov_r32_rm32(old(self)@)),
    {
        let start: u32 = self.eip;
        let modrm: ModRM = match self.fetch_modrm() {
            Ok(modrm) => modrm,
            Err(fault) => {
                return Err(fault);
            },
        };
        if let Some(fault) = self.rm_fault(&modrm, 4) {
            self.eip = start;
            return Err(fault);
        }
        let rm32: u32 = self.get_rm32(&modrm);
        self.set_r32(&modrm, rm32);
        Ok(())
    }

    /// `mov r8, imm8`.
    pub fn mov_r8_imm8(&mut self) -> (r: Result<(), Fault>)
        ensures
            outcome(old(self)@, final(self)@, r, semantics::mov_r8_imm8(old(self)@)),
    {
        if let Some(fault) = self.code_fault(0, 1) {
            return Err(fault);
        }
        if let Some(fault) = self.code_fault(1, 1) {
            return Err(fault);
        }
        let reg: usize = self.opcode_register();
        let value: u8 = self.get_code8(1);
        self.set_register8(reg, value);
        self.eip = self.eip.wrapping_add(2);
        Ok(())
    }

    /// `mov r8, rm8`.
    pub fn mov_r8_rm8(&mut self) -> (r: Result<(), Fault>)
        ensures
            outcome(old(self)@, final(self)@, r, semantics::mov_r8_rm8(old(self)@)),
    {
        let start: u32 = self.eip;
        let modrm: ModRM = match self.fetch_modrm() {
            Ok(modrm) => modrm,
            Err(fault) => {
                return Err(fault);
            },
        };
        if let Some(fault) = self.rm_fault(&modrm, 1) {
            self.eip = start;
            return Err(fault);
        }
        let rm8: u8 = self.get_rm8(&modrm);
        self.set_r8(&modrm, rm8);
        Ok(())
    }

    /// `mov rm8, r8`.
    pub fn mov_rm8_r8(&mut self) -> (r: Result<(), Fault>)
        ensures
            outcome(old(self)@, final(self)@, r, semantics::mov_rm8_r8(old(self)@)),
    {
        let start: u32 = self.eip;
        let modrm: ModRM = match self.fetch_modrm() {
            Ok(modrm) => modrm,
            Err(fault) => {
                return Err(fault);
            },
        };
        if let Some(fault) = self.rm_fault(&modrm, 1) {
            self.eip = start;
            return Err(fault);
        }
        let r8: u8 = self.get_r8(&modrm);
        self.set_rm8(&modrm, r8);
        Ok(())
    }

    /// The port in DX.
    fn dx_port(&self) -> (port: u16)
        ensures
            port == semantics::dx_port(self@),
    {
        let edx: u32 = self.get_register32(2);
        proof {
            lemma_low_word(edx);
        }
        (edx & 0xFFFF) as u16
    }

    /// `in al, dx`.
    pub fn in_al_dx(&mut self, console: &mut Console) -> (r: Result<Notice, Fault>)
        ensures
            outcome_io(
                old(self)@,
                final(self)@,
                old(console)@,
                final(console)@,
                r,
                semantics::in_al_dx(old(self)@, old(console)@),
            ),
    {
        let addr: u16 = self.dx_port();
        let value: u8 = match io_in8(console, addr) {
            Ok(value) => value,
            Err(fault) => {
                return Err(fault);
            },
        };
        self.set_register8(0, value);
        self.eip = self.eip.wrapping_add(1);
        Ok(Notice::Silent)
    }

    /// `out dx, al`.
    pub fn out_dx_al(&mut self, console: &mut Console) -> (r: Result<Notice, Fault>)
        ensures
            outcome_io(
                old(self)@,
                final(self)@,
                old(console)@,
                final(console)@,
                r,
                semantics::out_dx_al(old(self)@, old(console)@),
            ),
    {
        let addr: u16 = self.dx_port();
        let value: u8 = self.get_register8(0);
        io_out8(console, addr, value);
        self.eip = self.eip.wrapping_add(1);
        Ok(Notice::Silent)
    }

    /// `add rm32, r32`.
    pub fn add_rm32_r32(&mut self) -> (r: Result<(), Fault>)
        ensures
            outcome(old(self)@, final(self)@, r, semantics::add_rm32_r32(old(self)@)),
    {
        let start: u32 = self.eip;
        let modrm: ModRM = match self.fetch_modrm() {
            Ok(modrm) => modrm,
            Err(fault) => {
                return Err(fault);
            },
        };
        if let Some(fault) = self.rm_fault(&modrm, 4) {
            self.eip = start;
            return Err(fault);
        }
        let r32: u32 = self.get_r32(&modrm);
        let rm32: u32 = self.get_rm32(&modrm);
        self.set_rm32(&modrm, rm32.wrapping_add(r32));
        Ok(())
    }

    /// `add rm32, imm8`, the instruction pointer standing behind the operand
    /// descriptor `modrm`.
    #[verifier::rlimit(50)]
    pub fn add_rm32_imm8(&mut self, modrm: &ModRM) -> (r: Result<(), Fault>)
        requires
            modrm.wf(),
        ensures
            outcome(old(self)@, final(self)@, r, semantics::add_rm32_imm8(old(self)@, *modrm)),
    {
        if let Some(fault) = self.rm_fault(modrm, 4) {
            return Err(fault);
        }
        if let Some(fault) = self.code_fault(0, 1) {
            return Err(fault);
        }
        let rm32: u32 = self.get_rm32(modrm);
        let imm8: u32 = extend8(self.get_sign_code8(0));
        self.eip = self.eip.wrapping_add(1);
        self.set_rm32(modrm, rm32.wrapping_add(imm8));
        Ok(())
    }

    /// `cmp r32, rm32`.
    pub fn cmp_r32_rm32(&mut self) -> (r: Result<(), Fault>)
        ensures
            outcome(old(self)@, final(self)@, r, semantics::compare_r32_rm32(old(self)@)),
    {
        let start: u32 = self.eip;
        let modrm: ModRM = match self.fetch_modrm() {
            Ok(modrm) => modrm,
            Err(fault) => {
                return Err(fault);
            },
        };
        if let Some(fault) = self.rm_fault(&modrm, 4) {
            self.eip = start;
            return Err(fault);
        }
        let r32: u32 = self.get_r32(&modrm);
        let rm32: u32 = self.get_rm32(&modrm);
        let result: u64 = wide_difference(r32, rm32);
        self.update_eflags_sub(r32, rm32, result);
        Ok(())
    }

    /// `cmp rm32, imm8`, the instruction pointer standing behind the operand
    /// descriptor `modrm`.
    #[verifier::rlimit(50)]
    pub fn cmp_rm32_imm8(&mut self, modrm: &ModRM) -> (r: Result<(), Fault>)
        requires
            modrm.wf(),
        ensures
            outcome(old(self)@, final(self)@, r, semantics::compare_rm32_imm8(old(self)@, *modrm)),
    {
        if let Some(fault) = self.rm_fault(modrm, 4) {
            return Err(fault);
        }
        if let Some(fault) = self.code_fault(0, 1) {
            return Err(fault);
        }
        let rm32: u32 = self.get_rm32(modrm);
        let imm8: u32 = extend8(self.get_sign_code8(0));
        self.eip = self.eip.wrapping_add(1);
        let result: u64 = wide_difference(rm32, imm8);
        self.update_eflags_sub(rm32, imm8, result);
        Ok(())
    }

    /// `cmp eax, imm32`.
    pub fn cmp_eax_imm32(&mut self) -> (r: Result<(), Fault>)
        ensures
            outcome(old(self)@, final(self)@, r, semantics::compare_eax_imm32(old(self)@)),
    {
        if let Some(fault) = self.code_fault(1, 4) {
            return Err(fault);
        }
        let value: u32 = self.get_code32(1);
        let eax: u32 = self.get_register32(0);
        let result: u64 = wide_difference(eax, value);
        self.update_eflags_sub(eax, value, result);
        self.eip = self.eip.wrapping_add(5);
        Ok(())
    }

    /// `cmp al, imm8`.
    pub fn cmp_al_imm8(&mut self) -> (r: Result<(), Fault>)
        ensures
            outcome(old(self)@, final(self)@, r, semantics::compare_al_imm8(old(self)@)),
    {
        if let Some(fault) = self.code_fault(1, 1) {
            return Err(fault);
        }
        let value: u32 = widen8(self.get_code8(1));
        let al: u32 = widen8(self.get_register8(0));
        let result: u64 = wide_difference(al, value);
        self.update_eflags_sub(al, value, result);
        self.eip = self.eip.wrapping_add(2);
        Ok(())
    }

    /// `sub rm32, imm8`, the instruction pointer standing behind the operand
    /// descriptor `modrm`.
    #[verifier::rlimit(50)]
    pub fn sub_rm32_imm8(&mut self, modrm: &ModRM) -> (r: Result<(), Fault>)
        requires
            modrm.wf(),
        ensures
            outcome(old(self)@, final(self)@, r, semantics::sub_rm32_imm8(old(self)@, *modrm)),
    {
        if let Some(fault) = self.rm_fault(modrm, 4) {
            return Err(fault);
        }
        if let Some(fault) = self.code_fault(0, 1) {
            return Err(fault);
        }
        let rm32: u32 = self.get_rm32(modrm);
        let imm8: u32 = extend8(self.get_sign_code8(0));
        self.eip = self.eip.wrapping_add(1);
        let result: u64 = wide_difference(rm32, imm8);
        self.set_rm32(modrm, rm32.wrapping_sub(imm8));
        self.update_eflags_sub(rm32, imm8, result);
        Ok(())
    }

    /// Opcode 0x83: `add`, `sub` or `cmp rm32, imm8`, as the descriptor selects.
    #[verifier::rlimit(50)]
    pub fn code_83(&mut self) -> (r: Result<(), Fault>)
        ensures
            outcome(old(self)@, final(self)@, r, semantics::code_83(old(self)@)),
    {
        let start: u32 = self.eip;
        let modrm: ModRM = match self.fetch_modrm() {
            Ok(modrm) => modrm,
            Err(fault) => {
                return Err(fault);
            },
        };
        let selector: u8 = modrm.or.unwrap();
        let done: Result<(), Fault> = if selector == 0 {
            self.add_rm32_imm8(&modrm)
        } else if selector == 5 {
            self.sub_rm32_imm8(&modrm)
        } else if selector == 7 {
            self.cmp_rm32_imm8(&modrm)
        } else {
            Err(Fault::UnimplementedGroup { opcode: 0x83, selector })
        };
        match done {
            Ok(_) => Ok(()),
            Err(fault) => {
                self.eip = start;
                Err(fault)
            },
        }
    }

    /// `inc r32`.
    pub fn inc_r32(&mut self) -> (r: Result<(), Fault>)
        ensures
            outcome(old(self)@, final(self)@, r, semantics::inc_r32(old(self)@)),
    {
        if let Some(fault) = self.code_fault(0, 1) {
            return Err(fault);
        }
        let reg: usize = self.opcode_register();
        let value: u32 = self.get_register32(reg);
        self.set_register32(reg, value.wrapping_add(1));
        self.eip = self.eip.wrapping_add(1);
        Ok(())
    }

    /// `inc rm32`, the instruction pointer standing behind the operand
    /// descriptor `modrm`.
    pub fn inc_rm32(&mut self, modrm: &ModRM) -> (r: Result<(), Fault>)
        requires
            modrm.wf(),
        ensures
            outcome(old(self)@, final(self)@, r, semantics::inc_rm32(old(self)@, *modrm)),
    {
        if let Some(fault) = self.rm_fault(modrm, 4) {
            return Err(fault);
        }
        let value: u32 = self.get_rm32(modrm);
        self.set_rm32(modrm, value.wrapping_add(1));
        Ok(())
    }

    /// Opcode 0xFF: `inc rm32` when the descriptor selects it.
    pub fn code_ff(&mut self) -> (r: Result<(), Fault>)
        ensures
            outcome(old(self)@, final(self)@, r, semantics::code_ff(old(self)@)),
    {
        let start: u32 = self.eip;
        let modrm: ModRM = match self.fetch_modrm() {
            Ok(modrm) => modrm,
            Err(fault) => {
                return Err(fault);
            },
        };
        let selector: u8 = modrm.or.unwrap();
        let done: Result<(), Fault> = if selector == 0 {
            self.inc_rm32(&modrm)
        } else {
            Err(Fault::UnimplementedGroup { opcode: 0xFF, selector })
        };
        match done {
            Ok(_) => Ok(()),
            Err(fault) => {
                self.eip = start;
                Err(fault)
            },
        }
    }

    /// The fault, if any, of pushing a word.
    pub fn push_fault(&self) -> (r: Option<Fault>)
        ensures
            r == self@.push_fault(),
    {
        let esp: u32 = self.get_register32(4);
        if esp >= 4 && self.mem_fault(esp - 4, 4).is_none() {
            None
        } else {
            Some(Fault::OutOfBounds { addr: esp.wrapping_sub(4) as u64 })
        }
    }

    /// The fault, if any, of popping a word.
    pub fn pop_fault(&self) -> (r: Option<Fault>)
        ensures
            r == self@.pop_fault(),
    {
        self.mem_fault(self.get_register32(4), 4)
    }

    /// `push r32`.
    #[verifier::rlimit(50)]
    pub fn push_r32(&mut self) -> (r: Result<(), Fault>)
        ensures
            outcome(old(self)@, final(self)@, r, semantics::push_r32(old(self)@)),
    {
        if let Some(fault) = self.code_fault(0, 1) {
            return Err(fault);
        }
        if let Some(fault) = self.push_fault() {
            return Err(fault);
        }
        let reg: usize = self.opcode_register();
        let value: u32 = self.get_register32(reg);
        self.push32(value);
        self.eip = self.eip.wrapping_add(1);
        Ok(())
    }

    /// `push imm32`.
    #[verifier::rlimit(50)]
    pub fn push_imm32(&mut self) -> (r: Result<(), Fault>)
        ensures
            outcome(old(self)@, final(self)@, r, semantics::push_imm32(old(self)@)),
    {
        if let Some(fault) = self.code_fault(1, 4) {
            return Err(fault);
        }
        if let Some(fault) = self.push_fault() {
            return Err(fault);
        }
        let value: u32 = self.get_code32(1);
        self.push32(value);
        self.eip = self.eip.wrapping_add(5);
        Ok(())
    }

    /// `push imm8`.
    #[verifier::rlimit(50)]
    pub fn push_imm8(&mut self) -> (r: Result<(), Fault>)
        ensures
            outcome(old(self)@, final(self)@, r, semantics::push_imm8(old(self)@)),
    {
        if let Some(fault) = self.code_fault(1, 1) {
            return Err(fault);
        }
        if let Some(fault) = self.push_fault() {
            return Err(fault);
        }
        let value: u32 = extend8(self.get_sign_code8(1));
        self.push32(value);
        self.eip = self.eip.wrapping_add(2);
        Ok(())
    }

    /// `pop r32`.
    #[verifier::rlimit(50)]
    pub fn pop_r32(&mut self) -> (r: Result<(), Fault>)
        ensures
            outcome(old(self)@, final(self)@, r, semantics::pop_r32(old(self)@)),
    {
        if let Some(fault) = self.code_fault(0, 1) {
            return Err(fault);
        }
        if let Some(fault) = self.pop_fault() {
            return Err(fault);
        }
        let reg: usize = self.opcode_register();
        let value: u32 = self.pop32();
        self.set_register32(reg, value);
        self.eip = self.eip.wrapping_add(1);
        Ok(())
    }

    /// `jmp rel8`.
    pub fn short_jump(&mut self) -> (r: Result<(), Fault>)
        ensures
            outcome(old(self)@, final(self)@, r, semantics::short_jump(old(self)@)),
    {
        if let Some(fault) = self.code_fault(1, 1) {
            return Err(fault);
        }
        let diff: i8 = self.get_sign_code8(1);
        self.eip = self.eip.wrapping_add_signed(diff as i32 + 2);
        Ok(())
    }

    /// `jmp rel32`.
    pub fn near_jump(&mut self) -> (r: Result<(), Fault>)
        ensures
            outcome(old(self)@, final(self)@, r, semantics::near_jump(old(self)@)),
    {
        if let Some(fault) = self.code_fault(1, 4) {
            return Err(fault);
        }
        let diff: i32 = self.get_sign_code32(1);
        self.eip = displaced(self.eip, diff, 5);
        Ok(())
    }

    /// A conditional short jump whose condition is `taken`.
    fn jump_if(&mut self, taken: bool) -> (r: Result<(), Fault>)
        ensures
            outcome(old(self)@, final(self)@, r, semantics::jump_if(old(self)@, taken)),
    {
        if taken {
            self.short_jump()
        } else {
            self.eip = self.eip.wrapping_add(2);
            Ok(())
        }
    }

    /// `js rel8`.
    pub fn jump_sign(&mut self) -> (r: Result<(), Fault>)
        ensures
            outcome(
                old(self)@,
                final(self)@,
                r,
                semantics::jump_if(old(self)@, old(self).eflags@.sign),
            ),
    {
        let taken: bool = self.eflags.is_sign();
        self.jump_if(taken)
    }

    /// `jns rel8`.
    pub fn jump_not_sign(&mut self) -> (r: Result<(), Fault>)
        ensures
            outcome(
                old(self)@,
                final(self)@,
                r,
                semantics::jump_if(old(self)@, !old(self).eflags@.sign),
            ),
    {
        let taken: bool = !self.eflags.is_sign();
        self.jump_if(taken)
    }

    /// `jc rel8`.
    pub fn jump_carry(&mut self) -> (r: Result<(), Fault>)
        ensures
            outcome(
                old(self)@,
                final(self)@,
                r,
                semantics::jump_if(old(self)@, old(self).eflags@.carry),
            ),
    {
        let taken: bool = self.eflags.is_carry();
        self.jump_if(taken)
    }

    /// `jnc rel8`.
    pub fn jump_not_carry(&mut self) -> (r: Result<(), Fault>)
        ensures
            outcome(
                old(self)@,
                final(self)@,
                r,
                semantics::jump_if(old(self)@, !old(self).eflags@.carry),
            ),
    {
        let taken: bool = !self.eflags.is_carry();
        self.jump_if(taken)
    }

    /// `jz rel8`.
    pub fn jump_zero(&mut self) -> (r: Result<(), Fault>)
        ensures
            outcome(
                old(self)@,
                final(self)@,
                r,
                semantics::jump_if(old(self)@, old(self).eflags@.zero),
            ),
    {
        let taken: bool = self.eflags.is_zero();
        self.jump_if(taken)
    }

    /// `jnz rel8`.
    pub fn jump_not_zero(&mut self) -> (r: Result<(), Fault>)
        ensures
            outcome(
                old(self)@,
                final(self)@,
                r,
                semantics::jump_if(old(self)@, !old(self).eflags@.zero),
            ),
    {
        let taken: bool = !self.eflags.is_zero();
        self.jump_if(taken)
    }

    /// `jo rel8`.
    pub fn jump_overflow(&mut self) -> (r: Result<(), Fault>)
        ensures
            outcome(
                old(self)@,
                final(self)@,
                r,
                semantics::jump_if(old(self)@, old(self).eflags@.overflow),
            ),
    {
        let taken: bool = self.eflags.is_overflow();
        self.jump_if(taken)
    }

    /// `jno rel8`.
    pub fn jump_not_overflow(&mut self) -> (r: Result<(), Fault>)
        ensures
            outcome(
                old(self)@,
                final(self)@,
                r,
                semantics::jump_if(old(self)@, !old(self).eflags@.overflow),
            ),
    {
        let taken: bool = !self.eflags.is_overflow();
        self.jump_if(taken)
    }

    /// `jl rel8`.
    pub fn jump_less(&mut self) -> (r: Result<(), Fault>)
        ensures
            outcome(
                old(self)@,
                final(self)@,
                r,
                semantics::jump_if(old(self)@, semantics::less(old(self).eflags@)),
            ),
    {
        let taken: bool = self.eflags.is_sign() != self.eflags.is_overflow();
        self.jump_if(taken)
    }

    /// `jle rel8`.
    pub fn jump_less_or_eq(&mut self) -> (r: Result<(), Fault>)
        ensures
            outcome(
                old(self)@,
                final(self)@,
                r,
                semantics::jump_if(
                    old(self)@,
                    old(self).eflags@.zero || semantics::less(old(self).eflags@),
                ),
            ),
    {
        let taken: bool = self.eflags.is_zero() || self.eflags.is_sign()
            != self.eflags.is_overflow();
        self.jump_if(taken)
    }

    /// `call rel32`.
    #[verifier::rlimit(50)]
    pub fn call_rel32(&mut self) -> (r: Result<(), Fault>)
        ensures
            outcome(old(self)@, final(self)@, r, semantics::call_rel32(old(self)@)),
    {
        if let Some(fault) = self.code_fault(1, 4) {
            return Err(fault);
        }
        if let Some(fault) = self.push_fault() {
            return Err(fault);
        }
        let diff: i32 = self.get_sign_code32(1);
        let next: u32 = self.eip.wrapping_add(5);
        let target: u32 = displaced(self.eip, diff, 5);
        self.push32(next);
        self.eip = target;
        Ok(())
    }

    /// `int n`.
    pub fn interrupt(&mut self, console: &mut Console) -> (r: Result<Notice, Fault>)
        ensures
            outcome_io(
                old(self)@,
                final(self)@,
                old(console)@,
                final(console)@,
                r,
                semantics::interrupt(old(self)@, old(console)@),
            ),
    {
        if let Some(fault) = self.code_fault(1, 1) {
            return Err(fault);
        }
        let int_index: u8 = self.get_code8(1);
        let notice: Notice = if int_index == 0x10 {
            self.bios_video(console)
        } else {
            Notice::UnknownInterrupt(int_index)
        };
        self.eip = self.eip.wrapping_add(2);
        Ok(notice)
    }

    /// `ret`.
    pub fn ret(&mut self) -> (r: Result<(), Fault>)
        ensures
            outcome(old(self)@, final(self)@, r, semantics::ret(old(self)@)),
    {
        if let Some(fault) = self.pop_fault() {
            return Err(fault);
        }
        self.eip = self.pop32();
        Ok(())
    }

    /// `leave`.
    #[verifier::rlimit(50)]
    pub fn leave(&mut self) -> (r: Result<(), Fault>)
        ensures
            outcome(old(self)@, final(self)@, r, semantics::leave(old(self)@)),
    {
        let ebp: u32 = self.get_register32(5);
        if let Some(fault) = self.mem_fault(ebp, 4) {
            return Err(fault);
        }
        self.set_register32(4, ebp);
        let top: u32 = self.pop32();
        self.set_register32(5, top);
        self.eip = self.eip.wrapping_add(1);
        Ok(())
    }

    /// Carries out `inst`, reading the bytes at the instruction pointer as
    /// its encoding. On a fault neither machine nor console changes.
    pub fn execute(&mut self, inst: Instruction, console: &mut Console) -> (r: Result<
        Notice,
        Fault,
    >)
        ensures
            outcome_io(
                old(self)@,
                final(self)@,
                old(console)@,
                final(console)@,
                r,
                execute_spec(old(self)@, old(console)@, inst),
            ),
    {
        match inst {
            Instruction::AddRm32R32 => silent(self.add_rm32_r32()),
            Instruction::CompareR32Rm32 => silent(self.cmp_r32_rm32()),
            Instruction::CompareAlImm8 => silent(self.cmp_al_imm8()),
            Instruction::CompareEaxImm32 => silent(self.cmp_eax_imm32()),
            Instruction::IncR32 => silent(self.inc_r32()),
            Instruction::PushR32 => silent(self.push_r32()),
            Instruction::PopR32 => silent(self.pop_r32()),
            Instruction::PushImm32 => silent(self.push_imm32()),
            Instruction::PushImm8 => silent(self.push_imm8()),
            Instruction::JumpOverflow => silent(self.jump_overflow()),
            Instruction::JumpNotOverflow => silent(self.jump_not_overflow()),
            Instruction::JumpCarry => silent(self.jump_carry()),
            Instruction::JumpNotCarry => silent(self.jump_not_carry()),
            Instruction::JumpZero => silent(self.jump_zero()),
            Instruction::JumpNotZero => silent(self.jump_not_zero()),
            Instruction::JumpSign => silent(self.jump_sign()),
            Instruction::JumpNotSign => silent(self.jump_not_sign()),
            Instruction::JumpLess => silent(self.jump_less()),
            Instruction::JumpLessOrEq => silent(self.jump_less_or_eq()),
            Instruction::Code83 => silent(self.code_83()),
            Instruction::MovRm8R8 => silent(self.mov_rm8_r8()),
            Instruction::MovRm32R32 => silent(self.mov_rm32_r32()),
            Instruction::MovR8Rm8 => silent(self.mov_r8_rm8()),
            Instruction::MovR32Rm32 => silent(self.mov_r32_rm32()),
            Instruction::MovR8Imm8 => silent(self.mov_r8_imm8()),
            Instruction::MovR32Imm32 => silent(self.mov_r32_imm32()),
            Instruction::Ret => silent(self.ret()),
            Instruction::MovRm32Imm32 => silent(self.mov_rm32_imm32()),
            Instruction::Leave => silent(self.leave()),
            Instruction::Int => self.interrupt(console),
            Instruction::CallRel32 => silent(self.call_rel32()),
            Instruction::NearJump => silent(self.near_jump()),
            Instruction::ShortJump => silent(self.short_jump()),
            Instruction::InAlDx => self.in_al_dx(console),
            Instruction::OutDxAl => self.out_dx_al(console),
            Instruction::CodeFf => silent(self.code_ff()),
        }
    }
}

/// The operation of opcode `code`, if it has one.
pub fn instructions(code: u8) -> (r: Option<Instruction>)
    ensures
        r == decode(code),
{
    match code {
        0x01 => Some(Instruction::AddRm32R32),
        0x3B => Some(Instruction::CompareR32Rm32),
        0x3C => Some(Instruction::CompareAlImm8),
        0x3D => Some(Instruction::CompareEaxImm32),
        0x40..=0x47 => Some(Instruction::IncR32),
        0x50..=0x57 => Some(Instruction::PushR32),
        0x58..=0x5F => Some(Instruction::PopR32),
        0x68 => Some(Instruction::PushImm32),
        0x6A => Some(Instruction::PushImm8),
        0x70 => Some(Instruction::JumpOverflow),
        0x71 => Some(Instruction::JumpNotOverflow),
        0x72 => Some(Instruction::JumpCarry),
        0x73 => Some(Instruction::JumpNotCarry),
        0x74 => Some(Instruction::JumpZero),
        0x75 => Some(Instruction::JumpNotZero),
        0x78 => Some(Instruction::JumpSign),
        0x79 => Some(Instruction::JumpNotSign),
        0x7C => Some(Instruction::JumpLess),
        0x7E => Some(Instruction::JumpLessOrEq),
        0x83 => Some(Instruction::Code83),
        0x88 => Some(Instruction::MovRm8R8),
        0x89 => Some(Instruction::MovRm32R32),
        0x8A => Some(Instruction::MovR8Rm8),
        0x8B => Some(Instruction::MovR32Rm32),
        0xB0..=0xB7 => Some(Instruction::MovR8Imm8),
        0xB8..=0xBE => Some(Instruction::MovR32Imm32),
        0xC3 => Some(Instruction::Ret),
        0xC7 => Some(Instruction::MovRm32Imm32),
        0xC9 => Some(Instruction::Leave),
        0xCD => Some(Instruction::Int),
        0xE8 => Some(Instruction::CallRel32),
        0xE9 => Some(Instruction::NearJump),
        0xEB => Some(Instruction::ShortJump),
        0xEC => Some(Instruction::InAlDx),
        0xEE => Some(Instruction::OutDxAl),
        0xFF => Some(Instruction::CodeFf),
        _ => None,
    }
}

/// The operation of opcode `code` together with the name to show for it.
pub fn instructions_with_name(code: u8) -> (r: (Option<Instruction>, &'static str))
    ensures
        r.0 == decode(code),
        r.1@ == mnemonic(decode(code)),
{
    match instructions(code) {
        Some(inst) => (Some(inst), inst.name()),
        None => (None, "None"),
    }
}

/// No operation is called `None`.
pub proof fn lemma_name_is_not_none(inst: Instruction)
    ensures
        inst.spec_name() != "None"@,
        inst.spec_name().len() != 4,
{
    reveal_strlit("None");
    reveal_strlit("add_rm32_r32");
    reveal_strlit("cmp_r32_rm32");
    reveal_strlit("cmp_al_imm8");
    reveal_strlit("cmp_eax_imm32");
    reveal_strlit("inc_r32");
    reveal_strlit("push_r32");
    reveal_strlit("pop_r32");
    reveal_strlit("push_imm32");
    reveal_strlit("push_imm8");
    reveal_strlit("jump_overflow");
    reveal_strlit("jump_not_overflow");
    reveal_strlit("jump_carry");
    reveal_strlit("jump_not_carry");
    reveal_strlit("jump_zero");
    reveal_strlit("jump_not_zero");
    reveal_strlit("jump_sign");
    reveal_strlit("jump_not_sign");
    reveal_strlit("jump_less");
    reveal_strlit("jump_less_or_eq");
    reveal_strlit("code_83");
    reveal_strlit("mov_rm8_r8");
    reveal_strlit("mov_rm32_r32");
    reveal_strlit("mov_r8_rm8");
    reveal_strlit("mov_r32_rm32");
    reveal_strlit("mov_r8_imm8");
    reveal_strlit("mov_r32_imm32");
    reveal_strlit("ret");
    reveal_strlit("mov_rm32_imm32");
    reveal_strlit("leave");
    reveal_strlit("int");
    reveal_strlit("call_rel32");
    reveal_strlit("near_jump");
    reveal_strlit("short_jump");
    reveal_strlit("in_al_dx");
    reveal_strlit("out_dx_al");
    reveal_strlit("code_ff");
}

/// The opcode table and the table of names agree on every opcode byte: both
/// lookups find the same operation, and the name is `None` exactly for the
/// opcodes that have no operation.
pub proof fn lemma_dispatch_and_name_agree(code: u8)
    ensures
        decode(code) is None <==> mnemonic(decode(code)) == "None"@,
        decode(code) is Some ==> mnemonic(decode(code)) == decode(code).unwrap().spec_name(),
{
    if decode(code) is Some {
        lemma_name_is_not_none(decode(code).unwrap());
    }
}

/// The register a one-byte opcode names is the opcode's distance from the
/// first opcode of its group.
pub proof fn lemma_opcode_register(code: u8)
    ensures
        0x40 <= code <= 0x47 ==> opcode_register(code) == code - 0x40,
        0x50 <= code <= 0x57 ==> opcode_register(code) == code - 0x50,
        0x58 <= code <= 0x5F ==> opcode_register(code) == code - 0x58,
        0xB0 <= code <= 0xB7 ==> opcode_register(code) == code - 0xB0,
        0xB8 <= code <= 0xBF ==> opcode_register(code) == code - 0xB8,
{
}

/// The flags change only by a subtraction: after any instruction they are
/// what they were, or they are the flags of the difference of two words.
pub proof fn lemma_flags_come_from_subtraction(m: Machine, c: ConsoleState, inst: Instruction)
    requires
        execute_spec(m, c, inst) is Ok,
    ensures
        execute_spec(m, c, inst).unwrap().machine.flags == m.flags || exists|v1: u32, v2: u32|
            execute_spec(m, c, inst).unwrap().machine.flags == #[trigger] sub_flags(
                m.flags,
                v1,
                v2,
                wide_sub(v1, v2),
            ),
{
    let after = execute_spec(m, c, inst).unwrap().machine;
    match inst {
        Instruction::CompareR32Rm32 => {
            let (modrm, m2) = decode_modrm(m.advance(1)).unwrap();
            assert(after.flags == sub_flags(
                m.flags,
                m2.r32(modrm),
                m2.rm32(modrm),
                wide_sub(m2.r32(modrm), m2.rm32(modrm)),
            ));
        },
        Instruction::CompareAlImm8 => {
            let v1 = zero_extend8(m.reg8(0));
            let v2 = zero_extend8(m.code8(1));
            assert(after.flags == sub_flags(m.flags, v1, v2, wide_sub(v1, v2)));
        },
        Instruction::CompareEaxImm32 => {
            let v1 = m.reg32(0);
            let v2 = m.code32(1);
            assert(after.flags == sub_flags(m.flags, v1, v2, wide_sub(v1, v2)));
        },
        Instruction::Code83 => {
            let (modrm, m2) = decode_modrm(m.advance(1)).unwrap();
            let v1 = m2.rm32(modrm);
            let v2 = sign_extend8(m2.code8(0));
            if modrm.or.value() == 5 || modrm.or.value() == 7 {
                assert(after.flags == sub_flags(m.flags, v1, v2, wide_sub(v1, v2)));
            }
        },
        _ => {},
    }
}

} // verus!
