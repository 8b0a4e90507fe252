use aria::emulator::instruction::{instructions, Instruction};
use aria::emulator::io::Console;
use aria::emulator::{Eflags, Emulator, Fault, Notice};

fn state(registers: [u32; 8], memory: Vec<u8>) -> Emulator {
    Emulator { registers, eflags: Eflags { raw: 0x8C1 }, memory, eip: 0 }
}

/// Executes the instruction at `eip`, expecting `fault` and an untouched machine.
fn expect_fault(mut emu: Emulator, fault: Fault) {
    let registers = emu.registers;
    let memory = emu.memory.clone();
    let eip = emu.eip;
    let mut console = Console { input: vec![1, 2], output: vec![3] };
    let inst = instructions(emu.get_code8(0)).unwrap();
    assert_eq!(emu.execute(inst, &mut console), Err(fault));
    assert_eq!(emu.registers, registers);
    assert_eq!(emu.memory, memory);
    assert_eq!(emu.eip, eip);
    assert_eq!(emu.eflags.raw, 0x8C1);
    assert_eq!(console.input, vec![1, 2]);
    assert_eq!(console.output, vec![3]);
}

#[test]
fn sib_forms_are_not_implemented() {
    expect_fault(
        state([0; 8], vec![0x8B, 0b00_000_100, 0x24, 0, 0, 0, 0]),
        Fault::UnimplementedAddressing { mod_byte: 0, rm: 4 },
    );
    expect_fault(
        state([0; 8], vec![0x89, 0b01_000_100, 0x24, 0x01, 0, 0, 0, 0]),
        Fault::UnimplementedAddressing { mod_byte: 1, rm: 4 },
    );
    expect_fault(
        state([0; 8], vec![0x01, 0b10_000_100, 0x24, 0, 0, 0, 0, 0, 0, 0]),
        Fault::UnimplementedAddressing { mod_byte: 2, rm: 4 },
    );
    expect_fault(
        state([0; 8], vec![0xC7, 0b00_000_100, 0x24, 1, 2, 3, 4]),
        Fault::UnimplementedAddressing { mod_byte: 0, rm: 4 },
    );
    expect_fault(
        state([0; 8], vec![0x8A, 0b00_000_100, 0x24]),
        Fault::UnimplementedAddressing { mod_byte: 0, rm: 4 },
    );
}

#[test]
fn group_selectors_without_operation() {
    for selector in [1u8, 2, 3, 4, 6] {
        expect_fault(
            state([0; 8], vec![0x83, 0b11_000_000 | (selector << 3), 0x01]),
            Fault::UnimplementedGroup { opcode: 0x83, selector },
        );
    }
    for selector in 1..8u8 {
        expect_fault(
            state([0; 8], vec![0xFF, 0b11_000_000 | (selector << 3)]),
            Fault::UnimplementedGroup { opcode: 0xFF, selector },
        );
    }
}

#[test]
fn operands_outside_memory() {
    // mov eax, [ecx] with ecx at the last byte
    expect_fault(
        state([0, 7, 0, 0, 0, 0, 0, 0], vec![0x8B, 0b00_000_001, 0, 0, 0, 0, 0, 0]),
        Fault::OutOfBounds { addr: 7 },
    );
    // mov [0x100], eax
    expect_fault(
        state([0; 8], vec![0x89, 0b00_000_101, 0x00, 0x01, 0x00, 0x00]),
        Fault::OutOfBounds { addr: 0x100 },
    );
    // mov [ebx - 1], al with ebx = 0
    expect_fault(
        state([0; 8], vec![0x88, 0b01_000_011, 0xFF]),
        Fault::OutOfBounds { addr: 0xFFFF_FFFF },
    );
    // add [edx], eax
    expect_fault(
        state([0, 0, 0x20, 0, 0, 0, 0, 0], vec![0x01, 0b00_000_010]),
        Fault::OutOfBounds { addr: 0x20 },
    );
    // sub [esi], imm8: the operand is checked before the immediate is read
    expect_fault(
        state([0, 0, 0, 0, 0, 0, 0x30, 0], vec![0x83, 0b00_101_110]),
        Fault::OutOfBounds { addr: 0x30 },
    );
}

#[test]
fn instruction_bytes_outside_memory() {
    expect_fault(state([0; 8], vec![0xB8, 1, 2, 3]), Fault::OutOfBounds { addr: 1 });
    expect_fault(state([0; 8], vec![0xB0]), Fault::OutOfBounds { addr: 1 });
    expect_fault(state([0; 8], vec![0x3D, 1]), Fault::OutOfBounds { addr: 1 });
    expect_fault(state([0; 8], vec![0x3C]), Fault::OutOfBounds { addr: 1 });
    expect_fault(state([0; 8], vec![0x01]), Fault::OutOfBounds { addr: 1 });
    expect_fault(state([0; 8], vec![0x89, 0b10_000_000, 1]), Fault::OutOfBounds { addr: 2 });
    expect_fault(state([0; 8], vec![0xC7, 0xC0, 1, 2, 3]), Fault::OutOfBounds { addr: 2 });
    expect_fault(state([0; 8], vec![0x83, 0xC0]), Fault::OutOfBounds { addr: 2 });
    expect_fault(state([0, 0, 0, 0, 8, 0, 0, 0], vec![0x68, 1, 2, 3]), Fault::OutOfBounds { addr: 1 });
    expect_fault(state([0, 0, 0, 0, 8, 0, 0, 0], vec![0x6A]), Fault::OutOfBounds { addr: 1 });
    expect_fault(state([0; 8], vec![0xEB]), Fault::OutOfBounds { addr: 1 });
    expect_fault(state([0; 8], vec![0xE9, 1, 2]), Fault::OutOfBounds { addr: 1 });
    expect_fault(state([0, 0, 0, 0, 8, 0, 0, 0], vec![0xE8, 1, 2]), Fault::OutOfBounds { addr: 1 });
    expect_fault(state([0; 8], vec![0xCD]), Fault::OutOfBounds { addr: 1 });
}

#[test]
fn stack_outside_memory() {
    // push with esp below 4
    expect_fault(
        state([0, 0, 0, 0, 3, 0, 0, 0], vec![0x50, 0, 0, 0]),
        Fault::OutOfBounds { addr: 0xFFFF_FFFF },
    );
    expect_fault(
        state([0, 0, 0, 0, 0, 0, 0, 0], vec![0x68, 1, 2, 3, 4]),
        Fault::OutOfBounds { addr: 0xFFFF_FFFC },
    );
    // push with esp behind the end of memory
    expect_fault(
        state([0, 0, 0, 0, 9, 0, 0, 0], vec![0x50, 0, 0, 0, 0, 0, 0, 0]),
        Fault::OutOfBounds { addr: 5 },
    );
    // call with no room for the return address
    expect_fault(
        state([0, 0, 0, 0, 2, 0, 0, 0], vec![0xE8, 0, 0, 0, 0]),
        Fault::OutOfBounds { addr: 0xFFFF_FFFE },
    );
    // pop, ret and leave with the top of the stack outside memory
    expect_fault(
        state([0, 0, 0, 0, 2, 0, 0, 0], vec![0x58, 0, 0, 0, 0]),
        Fault::OutOfBounds { addr: 2 },
    );
    expect_fault(
        state([0, 0, 0, 0, 0x40, 0, 0, 0], vec![0xC3, 0, 0, 0, 0]),
        Fault::OutOfBounds { addr: 0x40 },
    );
    expect_fault(
        state([0, 0, 0, 0, 0, 3, 0, 0], vec![0xC9, 0, 0, 0, 0, 0]),
        Fault::OutOfBounds { addr: 3 },
    );
}

#[test]
fn reading_the_serial_port_without_input() {
    let mut emu = state([0x1234_5678, 0, 0x03F8, 0, 0, 0, 0, 0], vec![0xEC]);
    let mut console = Console::new();
    assert_eq!(emu.execute(Instruction::InAlDx, &mut console), Err(Fault::NoInput));
    assert_eq!(emu.registers[0], 0x1234_5678);
    assert_eq!(emu.eip, 0);
    assert!(console.input.is_empty());
    assert!(console.output.is_empty());
}

#[test]
fn faults_report_the_first_check_that_fails() {
    // The descriptor's bytes are read before the operand is resolved.
    expect_fault(state([0; 8], vec![0x8B, 0b10_000_100, 0x24]), Fault::OutOfBounds { addr: 3 });
    // The immediate is read before the operand is resolved.
    expect_fault(
        state([0; 8], vec![0xC7, 0b00_000_100, 0x24, 1, 2]),
        Fault::OutOfBounds { addr: 3 },
    );
    // The instruction bytes are read before the stack is touched.
    expect_fault(state([0; 8], vec![0x68, 1, 2, 3]), Fault::OutOfBounds { addr: 1 });
}

#[test]
fn notices_do_not_stop_an_instruction() {
    let mut emu = state([0; 8], vec![0xCD, 0x21]);
    let mut console = Console::new();
    assert_eq!(emu.execute(Instruction::Int, &mut console), Ok(Notice::UnknownInterrupt(0x21)));
    assert_eq!(emu.eip, 2);
    assert!(console.output.is_empty());

    let mut emu = state([0x0000_1300, 0, 0, 0, 0, 0, 0, 0], vec![0xCD, 0x10]);
    assert_eq!(emu.execute(Instruction::Int, &mut console), Ok(Notice::UnimplementedBios(0x13)));
    assert_eq!(emu.eip, 2);
    assert!(console.output.is_empty());
}
