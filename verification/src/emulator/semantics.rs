//! The meaning of each instruction, as a function from the machine before
//! it to the machine after it or to the fault that stops it.
//!
//! Checks are made in the order the processor meets them, so that the fault
//! reported is the first one. A faulting instruction changes nothing.
use vstd::prelude::*;

use crate::emulator::bios::{bios_video_console, bios_video_notice};
use crate::emulator::bits::{opcode_register, sign_extend8, signed32, signed8, wrap32, zero_extend8};
use crate::emulator::io::ConsoleState;
use crate::emulator::machine::Machine;
use crate::emulator::modrm::{decode_modrm, ModRM};
use crate::emulator::{Fault, FlagBits, Notice};

verus! {

/// An instruction's result when it completes.
pub struct Effect {
    pub machine: Machine,
    pub console: ConsoleState,
    pub notice: Notice,
}

/// `rest`, unless `fault` stops the instruction first.
pub open spec fn guard(fault: Option<Fault>, rest: Result<Machine, Fault>) -> Result<Machine, Fault> {
    match fault {
        Some(f) => Err(f),
        None => rest,
    }
}

/// The result of an instruction that leaves the console alone and reports
/// nothing.
pub open spec fn quiet(result: Result<Machine, Fault>, console: ConsoleState) -> Result<
    Effect,
    Fault,
> {
    match result {
        Ok(machine) => Ok(Effect { machine, console, notice: Notice::Silent }),
        Err(f) => Err(f),
    }
}

/// The executable instruction did what `expected` says: on success the
/// machine is the expected one, on a fault it is unchanged.
pub open spec fn outcome(
    before: Machine,
    after: Machine,
    result: Result<(), Fault>,
    expected: Result<Machine, Fault>,
) -> bool {
    match expected {
        Ok(machine) => result is Ok && after == machine,
        Err(f) => result == Err::<(), Fault>(f) && after == before,
    }
}

/// `mov r32, imm32`: the register named by the opcode takes the four bytes
/// that follow it.
pub open spec fn mov_r32_imm32(m: Machine) -> Result<Machine, Fault> {
    guard(
        m.code_fault(0, 1),
        guard(
            m.code_fault(1, 4),
            Ok(m.set_reg32(opcode_register(m.code8(0)), m.code32(1)).advance(5)),
        ),
    )
}

/// `mov rm32, imm32`.
pub open spec fn mov_rm32_imm32(m: Machine) -> Result<Machine, Fault> {
    match decode_modrm(m.advance(1)) {
        Err(f) => Err(f),
        Ok((modrm, m2)) => guard(
            m2.code_fault(0, 4),
            guard(
                m2.rm_fault(modrm, 4),
                Ok(m2.advance(4).set_rm32(modrm, m2.code32(0))),
            ),
        ),
    }
}

/// `mov rm32, r32`.
pub open spec fn mov_rm32_r32(m: Machine) -> Result<Machine, Fault> {
    match decode_modrm(m.advance(1)) {
        Err(f) => Err(f),
        Ok((modrm, m2)) => guard(m2.rm_fault(modrm, 4), Ok(m2.set_rm32(modrm, m2.r32(modrm)))),
    }
}

/// `mov r32, rm32`.
pub open spec fn mov_r32_rm32(m: Machine) -> Result<Machine, Fault> {
    match decode_modrm(m.advance(1)) {
        Err(f) => Err(f),
        Ok((modrm, m2)) => guard(m2.rm_fault(modrm, 4), Ok(m2.set_r32(modrm, m2.rm32(modrm)))),
    }
}

/// `mov r8, imm8`: the 8-bit register named by the opcode takes the byte
/// that follows it.
pub open spec fn mov_r8_imm8(m: Machine) -> Result<Machine, Fault> {
    guard(
        m.code_fault(0, 1),
        guard(
            m.code_fault(1, 1),
            Ok(m.set_reg8(opcode_register(m.code8(0)), m.code8(1)).advance(2)),
        ),
    )
}

/// `mov r8, rm8`.
pub open spec fn mov_r8_rm8(m: Machine) -> Result<Machine, Fault> {
    match decode_modrm(m.advance(1)) {
        Err(f) => Err(f),
        Ok((modrm, m2)) => guard(m2.rm_fault(modrm, 1), Ok(m2.set_r8(modrm, m2.rm8(modrm)))),
    }
}

/// `mov rm8, r8`.
pub open spec fn mov_rm8_r8(m: Machine) -> Result<Machine, Fault> {
    match decode_modrm(m.advance(1)) {
        Err(f) => Err(f),
        Ok((modrm, m2)) => guard(m2.rm_fault(modrm, 1), Ok(m2.set_rm8(modrm, m2.r8(modrm)))),
    }
}

/// The port that `in` and `out` address: the low 16 bits of EDX.
pub open spec fn dx_port(m: Machine) -> u16 {
    (m.reg32(2) % 0x1_0000) as u16
}

/// `in al, dx`: AL takes the byte read from the port in DX.
pub open spec fn in_al_dx(m: Machine, c: ConsoleState) -> Result<Effect, Fault> {
    match c.in_fault(dx_port(m)) {
        Some(f) => Err(f),
        None => Ok(
            Effect {
                machine: m.set_reg8(0, c.in_value(dx_port(m))).advance(1),
                console: c.after_in(dx_port(m)),
                notice: Notice::Silent,
            },
        ),
    }
}

/// `out dx, al`: AL is written to the port in DX.
pub open spec fn out_dx_al(m: Machine, c: ConsoleState) -> Result<Effect, Fault> {
    Ok(
        Effect {
            machine: m.advance(1),
            console: c.after_out(dx_port(m), m.reg8(0)),
            notice: Notice::Silent,
        },
    )
}

/// `add rm32, r32`: the sum within 32 bits.
pub open spec fn add_rm32_r32(m: Machine) -> Result<Machine, Fault> {
    match decode_modrm(m.advance(1)) {
        Err(f) => Err(f),
        Ok((modrm, m2)) => guard(
            m2.rm_fault(modrm, 4),
            Ok(m2.set_rm32(modrm, wrap32(m2.rm32(modrm) + m2.r32(modrm)))),
        ),
    }
}

/// `add rm32, imm8`, on a machine that stands behind the operand
/// descriptor: the operand plus the sign-extended byte, within 32 bits.
pub open spec fn add_rm32_imm8(m: Machine, modrm: ModRM) -> Result<Machine, Fault> {
    guard(
        m.rm_fault(modrm, 4),
        guard(
            m.code_fault(0, 1),
            Ok(m.advance(1).set_rm32(modrm, wrap32(m.rm32(modrm) + signed8(m.code8(0))))),
        ),
    )
}

/// `cmp r32, rm32`: the flags of `r32 - rm32`.
pub open spec fn compare_r32_rm32(m: Machine) -> Result<Machine, Fault> {
    match decode_modrm(m.advance(1)) {
        Err(f) => Err(f),
        Ok((modrm, m2)) => guard(
            m2.rm_fault(modrm, 4),
            Ok(m2.compare(m2.r32(modrm), m2.rm32(modrm))),
        ),
    }
}

/// `cmp rm32, imm8`, on a machine that stands behind the operand
/// descriptor: the flags of the operand minus the sign-extended byte.
pub open spec fn compare_rm32_imm8(m: Machine, modrm: ModRM) -> Result<Machine, Fault> {
    guard(
        m.rm_fault(modrm, 4),
        guard(
            m.code_fault(0, 1),
            Ok(m.advance(1).compare(m.rm32(modrm), sign_extend8(m.code8(0)))),
        ),
    )
}

/// `cmp eax, imm32`: the flags of EAX minus the four bytes after the
/// opcode.
pub open spec fn compare_eax_imm32(m: Machine) -> Result<Machine, Fault> {
    guard(m.code_fault(1, 4), Ok(m.compare(m.reg32(0), m.code32(1)).advance(5)))
}

/// `cmp al, imm8`: the flags of AL minus the byte after the opcode, both
/// taken as 32-bit words.
pub open spec fn compare_al_imm8(m: Machine) -> Result<Machine, Fault> {
    guard(
        m.code_fault(1, 1),
        Ok(m.compare(zero_extend8(m.reg8(0)), zero_extend8(m.code8(1))).advance(2)),
    )
}

/// `sub rm32, imm8`, on a machine that stands behind the operand
/// descriptor: the operand minus the sign-extended byte, within 32 bits,
/// and the flags of that subtraction.
pub open spec fn sub_rm32_imm8(m: Machine, modrm: ModRM) -> Result<Machine, Fault> {
    guard(
        m.rm_fault(modrm, 4),
        guard(
            m.code_fault(0, 1),
            Ok(
                m.advance(1).set_rm32(modrm, wrap32(m.rm32(modrm) - signed8(m.code8(0)))).compare(
                    m.rm32(modrm),
                    sign_extend8(m.code8(0)),
                ),
            ),
        ),
    )
}

/// Opcode 0x83: the operation that the descriptor's middle field selects,
/// on the rm operand and the byte after the descriptor.
pub open spec fn code_83(m: Machine) -> Result<Machine, Fault> {
    match decode_modrm(m.advance(1)) {
        Err(f) => Err(f),
        Ok((modrm, m2)) => if modrm.or.value() == 0 {
            add_rm32_imm8(m2, modrm)
        } else if modrm.or.value() == 5 {
            sub_rm32_imm8(m2, modrm)
        } else if modrm.or.value() == 7 {
            compare_rm32_imm8(m2, modrm)
        } else {
            Err(Fault::UnimplementedGroup { opcode: 0x83, selector: modrm.or.value() })
        },
    }
}

/// `inc r32`: the register named by the opcode plus 1, within 32 bits.
pub open spec fn inc_r32(m: Machine) -> Result<Machine, Fault> {
    guard(
        m.code_fault(0, 1),
        Ok(
            m.set_reg32(
                opcode_register(m.code8(0)),
                wrap32(m.reg32(opcode_register(m.code8(0))) + 1),
            ).advance(1),
        ),
    )
}

/// `inc rm32`, on a machine that stands behind the operand descriptor.
pub open spec fn inc_rm32(m: Machine, modrm: ModRM) -> Result<Machine, Fault> {
    guard(m.rm_fault(modrm, 4), Ok(m.set_rm32(modrm, wrap32(m.rm32(modrm) + 1))))
}

/// Opcode 0xFF: the operation that the descriptor's middle field selects.
pub open spec fn code_ff(m: Machine) -> Result<Machine, Fault> {
    match decode_modrm(m.advance(1)) {
        Err(f) => Err(f),
        Ok((modrm, m2)) => if modrm.or.value() == 0 {
            inc_rm32(m2, modrm)
        } else {
            Err(Fault::UnimplementedGroup { opcode: 0xFF, selector: modrm.or.value() })
        },
    }
}

/// `push r32`: pushes the register named by the opcode.
pub open spec fn push_r32(m: Machine) -> Result<Machine, Fault> {
    guard(
        m.code_fault(0, 1),
        guard(m.push_fault(), Ok(m.push(m.reg32(opcode_register(m.code8(0)))).advance(1))),
    )
}

/// `push imm32`: pushes the four bytes after the opcode.
pub open spec fn push_imm32(m: Machine) -> Result<Machine, Fault> {
    guard(m.code_fault(1, 4), guard(m.push_fault(), Ok(m.push(m.code32(1)).advance(5))))
}

/// `push imm8`: pushes the sign-extended byte after the opcode.
pub open spec fn push_imm8(m: Machine) -> Result<Machine, Fault> {
    guard(
        m.code_fault(1, 1),
        guard(m.push_fault(), Ok(m.push(sign_extend8(m.code8(1))).advance(2))),
    )
}

/// `pop r32`: pops into the register named by the opcode.
pub open spec fn pop_r32(m: Machine) -> Result<Machine, Fault> {
    guard(
        m.code_fault(0, 1),
        guard(
            m.pop_fault(),
            Ok(m.pop().set_reg32(opcode_register(m.code8(0)), m.top()).advance(1)),
        ),
    )
}

/// `jmp rel8`: the instruction pointer moves past the two bytes and then by
/// the signed byte.
pub open spec fn short_jump(m: Machine) -> Result<Machine, Fault> {
    guard(m.code_fault(1, 1), Ok(m.advance(signed8(m.code8(1)) + 2)))
}

/// `jmp rel32`: the instruction pointer moves past the five bytes and then
/// by the signed word.
pub open spec fn near_jump(m: Machine) -> Result<Machine, Fault> {
    guard(m.code_fault(1, 4), Ok(m.advance(signed32(m.code32(1)) + 5)))
}

/// A conditional short jump: as `jmp rel8` when `taken`; otherwise the
/// instruction pointer moves past the two bytes, and the displacement is
/// not read.
pub open spec fn jump_if(m: Machine, taken: bool) -> Result<Machine, Fault> {
    if taken {
        short_jump(m)
    } else {
        Ok(m.advance(2))
    }
}

/// The signed comparison "less": sign differs from overflow.
pub open spec fn less(f: FlagBits) -> bool {
    f.sign != f.overflow
}

/// `call rel32`: pushes the address of the next instruction and jumps as
/// `jmp rel32` does.
pub open spec fn call_rel32(m: Machine) -> Result<Machine, Fault> {
    guard(
        m.code_fault(1, 4),
        guard(
            m.push_fault(),
            Ok(m.push(wrap32(m.eip + 5)).jump(wrap32(m.eip + signed32(m.code32(1)) + 5))),
        ),
    )
}

/// `int n`: video service for vector 0x10; any other vector is reported and
/// does nothing. The instruction pointer moves past the two bytes either
/// way.
pub open spec fn interrupt(m: Machine, c: ConsoleState) -> Result<Effect, Fault> {
    match m.code_fault(1, 1) {
        Some(f) => Err(f),
        None => if m.code8(1) == 0x10 {
            Ok(
                Effect {
                    machine: m.advance(2),
                    console: bios_video_console(m, c),
                    notice: bios_video_notice(m),
                },
            )
        } else {
            Ok(
                Effect {
                    machine: m.advance(2),
                    console: c,
                    notice: Notice::UnknownInterrupt(m.code8(1)),
                },
            )
        },
    }
}

/// `ret`: the instruction pointer takes the popped word.
pub open spec fn ret(m: Machine) -> Result<Machine, Fault> {
    guard(m.pop_fault(), Ok(m.pop().jump(m.top())))
}

/// `leave`: the stack pointer takes EBP, then EBP takes the popped word.
pub open spec fn leave(m: Machine) -> Result<Machine, Fault> {
    guard(
        m.set_reg32(4, m.reg32(5)).pop_fault(),
        Ok(
            m.set_reg32(4, m.reg32(5)).pop().set_reg32(
                5,
                m.set_reg32(4, m.reg32(5)).top(),
            ).advance(1),
        ),
    )
}

} // verus!
