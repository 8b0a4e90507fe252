use aria::emulator::instruction::{instructions, instructions_with_name, Instruction};
use aria::emulator::io::Console;
use aria::emulator::modrm::{Disp, ModRM, OR};
use aria::emulator::{Eflags, Emulator};

fn blank(memory: Vec<u8>) -> Emulator {
    Emulator {
        registers: [0, 0, 0, 0, 0, 0, 0, 0],
        eflags: Eflags { raw: 0 },
        memory,
        eip: 0,
    }
}

#[test]
fn dispatch_and_names_agree_on_every_opcode() {
    let mut implemented = 0;
    for code in 0..=255u8 {
        let found = instructions(code);
        let (same, name) = instructions_with_name(code);
        assert_eq!(found, same);
        assert_eq!(found.is_none(), name == "None");
        if let Some(inst) = found {
            assert_eq!(inst.name(), name);
            implemented += 1;
        }
    }
    assert_eq!(implemented, 5 * 8 - 1 + 31);
}

#[test]
fn dispatch_of_chosen_opcodes() {
    assert_eq!(instructions(0x00), None);
    assert_eq!(instructions(0x3F), None);
    assert_eq!(instructions(0x40), Some(Instruction::IncR32));
    assert_eq!(instructions(0x48), None);
    assert_eq!(instructions(0x5F), Some(Instruction::PopR32));
    assert_eq!(instructions(0xBE), Some(Instruction::MovR32Imm32));
    assert_eq!(instructions(0xBF), None);
    assert_eq!(instructions(0x90), None);
    assert_eq!(instructions_with_name(0x90).1, "None");
    assert_eq!(instructions(0xFF), Some(Instruction::CodeFf));
}

#[test]
fn push_then_pop_returns_the_value_and_restores_esp() {
    for &esp in &[4u32, 5, 8, 12] {
        for &value in &[0u32, 1, 0x7FFF_FFFF, 0x8000_0000, 0x1234_5678, 0xFFFF_FFFF] {
            let mut emu = blank(vec![0xAA; 12]);
            emu.registers[4] = esp;
            emu.push32(value);
            assert_eq!(emu.registers[4], esp - 4);
            assert_eq!(emu.get_memory32(esp - 4), value);
            assert_eq!(emu.pop32(), value);
            assert_eq!(emu.registers[4], esp);
        }
    }
}

#[test]
fn push_stores_least_significant_byte_first() {
    let mut emu = blank(vec![0; 8]);
    emu.registers[4] = 6;
    emu.push32(0x0102_0304);
    assert_eq!(emu.memory, vec![0, 0, 0x04, 0x03, 0x02, 0x01, 0, 0]);
}

fn flags_of(v1: u32, v2: u32) -> (bool, bool, bool, bool) {
    let mut emu = blank(vec![0]);
    emu.update_eflags_sub(v1, v2, (v1 as u64).wrapping_sub(v2 as u64));
    (
        emu.eflags.is_carry(),
        emu.eflags.is_zero(),
        emu.eflags.is_sign(),
        emu.eflags.is_overflow(),
    )
}

#[test]
fn flags_of_a_subtraction_compare_the_operands() {
    let samples = [
        0u32,
        1,
        2,
        0x10,
        0x7FFF_FFFE,
        0x7FFF_FFFF,
        0x8000_0000,
        0x8000_0001,
        0xFFFF_FFFE,
        0xFFFF_FFFF,
    ];
    for &v1 in &samples {
        for &v2 in &samples {
            let (carry, zero, sign, overflow) = flags_of(v1, v2);
            assert_eq!(carry, v1 < v2);
            assert_eq!(zero, v1 == v2);
            assert_eq!(sign, v1.wrapping_sub(v2) >= 0x8000_0000);
            assert_eq!(overflow, (v1 as i32).checked_sub(v2 as i32).is_none());
        }
    }
}

#[test]
fn flags_exact_values() {
    assert_eq!(flags_of(5, 3), (false, false, false, false));
    assert_eq!(flags_of(3, 3), (false, true, false, false));
    assert_eq!(flags_of(3, 5), (true, false, true, false));
    assert_eq!(flags_of(0x8000_0000, 1), (false, false, false, true));
    assert_eq!(flags_of(0x7FFF_FFFF, 0xFFFF_FFFF), (true, false, true, true));
    assert_eq!(flags_of(0, 0x8000_0000), (true, false, true, true));
}

#[test]
fn flags_take_the_four_bits_and_leave_the_rest() {
    let mut emu = blank(vec![0]);
    emu.eflags.raw = 0xFFFF_FFFF;
    emu.update_eflags_sub(5, 3, 2);
    assert_eq!(emu.eflags.raw, 0xFFFF_FFFF & !0x8C1);
    emu.eflags.raw = 0;
    emu.update_eflags_sub(0, 0x8000_0000, 0u64.wrapping_sub(0x8000_0000));
    assert_eq!(emu.eflags.raw, 0x001 | 0x080 | 0x800);
    emu.update_eflags_sub(7, 7, 0);
    assert_eq!(emu.eflags.raw, 0x040);
}

#[test]
fn flags_read_the_wide_result_as_given() {
    let mut emu = blank(vec![0]);
    // The low 32 bits are 0 though the whole is not.
    emu.update_eflags_sub(0, 0, 0x1_0000_0000);
    assert!(emu.eflags.is_carry());
    assert!(emu.eflags.is_zero());
    assert!(!emu.eflags.is_sign());
    assert!(!emu.eflags.is_overflow());
}

#[test]
fn flag_setters_touch_one_bit() {
    let mut flags = Eflags { raw: 0 };
    flags.set_carry(true);
    assert_eq!(flags.raw, 0x001);
    flags.set_zero(true);
    assert_eq!(flags.raw, 0x041);
    flags.set_sign(true);
    assert_eq!(flags.raw, 0x0C1);
    flags.set_overflow(true);
    assert_eq!(flags.raw, 0x8C1);
    assert!(flags.is_carry() && flags.is_zero() && flags.is_sign() && flags.is_overflow());
    flags.set_zero(false);
    assert_eq!(flags.raw, 0x881);
    assert!(!flags.is_zero());
    flags.set_carry(false);
    flags.set_sign(false);
    flags.set_overflow(false);
    assert_eq!(flags.raw, 0);
}

#[test]
fn register_operand_never_touches_memory() {
    for rm in 0..8u8 {
        let mut emu = blank(vec![0x11, 0x22, 0x33, 0x44]);
        let modrm = ModRM {
            mod_byte: 3,
            or: OR::RegIndex(0),
            rm,
            sib: 0,
            disp: Disp::Disp32(0),
        };
        emu.set_rm32(&modrm, 0xDEAD_BEEF);
        assert_eq!(emu.memory, vec![0x11, 0x22, 0x33, 0x44]);
        assert_eq!(emu.registers[rm as usize], 0xDEAD_BEEF);
        assert_eq!(emu.get_rm32(&modrm), 0xDEAD_BEEF);
    }
}

#[test]
fn memory_operand_holds_what_was_written() {
    let mut emu = blank(vec![0; 16]);
    emu.registers[3] = 8;
    let plain = ModRM { mod_byte: 0, or: OR::RegIndex(0), rm: 3, sib: 0, disp: Disp::Disp32(0) };
    emu.set_rm32(&plain, 0x0A0B_0C0D);
    assert_eq!(emu.get_rm32(&plain), 0x0A0B_0C0D);
    assert_eq!(&emu.memory[8..12], &[0x0D, 0x0C, 0x0B, 0x0A]);

    let back = ModRM { mod_byte: 1, or: OR::RegIndex(0), rm: 3, sib: 0, disp: Disp::Disp8(-4) };
    assert_eq!(emu.calc_memory_address(&back), 4);
    emu.set_rm32(&back, 0x5566_7788);
    assert_eq!(emu.get_rm32(&back), 0x5566_7788);
    assert_eq!(&emu.memory[4..8], &[0x88, 0x77, 0x66, 0x55]);

    let far = ModRM { mod_byte: 2, or: OR::RegIndex(0), rm: 3, sib: 0, disp: Disp::Disp32(4) };
    assert_eq!(emu.calc_memory_address(&far), 12);
    emu.set_rm8(&far, 0x99);
    assert_eq!(emu.get_rm8(&far), 0x99);
    assert_eq!(emu.memory[12], 0x99);
}

#[test]
fn effective_address_wraps_within_32_bits() {
    let mut emu = blank(vec![0; 4]);
    emu.registers[1] = 2;
    let below = ModRM { mod_byte: 1, or: OR::RegIndex(0), rm: 1, sib: 0, disp: Disp::Disp8(-3) };
    assert_eq!(emu.calc_memory_address(&below), 0xFFFF_FFFF);
    let above =
        ModRM { mod_byte: 2, or: OR::RegIndex(0), rm: 1, sib: 0, disp: Disp::Disp32(0xFFFF_FFFF) };
    assert_eq!(emu.calc_memory_address(&above), 1);
}

#[test]
fn mod_0_rm_5_is_an_absolute_address() {
    for &ebp in &[0u32, 4, 0x1000, 0xFFFF_FFFF] {
        // mov [0x00000008], imm32
        let mut emu = blank(vec![
            0xC7, 0x05, 0x08, 0x00, 0x00, 0x00, 0x78, 0x56, 0x34, 0x12, 0, 0,
        ]);
        emu.registers[5] = ebp;
        emu.eip = 1;
        let modrm = emu.parse_modrm().unwrap();
        assert_eq!(modrm.mod_byte, 0);
        assert_eq!(modrm.rm, 5);
        assert_eq!(modrm.disp, Disp::Disp32(8));
        assert_eq!(emu.eip, 6);
        assert_eq!(emu.calc_memory_address(&modrm), 8);

        emu.eip = 0;
        let mut console = Console::new();
        emu.execute(Instruction::MovRm32Imm32, &mut console).unwrap();
        assert_eq!(emu.eip, 10);
        assert_eq!(emu.get_memory32(8), 0x1234_5678);
        assert_eq!(emu.registers[5], ebp);
    }
}
