use aria::emulator::bios::put_string;
use aria::emulator::instruction::Instruction;
use aria::emulator::io::{io_in8, io_out8, Console, SERIAL_PORT};
use aria::emulator::{Eflags, Emulator, Fault, Notice, RegisterHigh, RegisterLow};

fn with_registers(registers: [u32; 8]) -> Emulator {
    Emulator { registers, eflags: Eflags { raw: 0 }, memory: vec![0xCD, 0x10], eip: 0 }
}

fn teletype(al: u8, bl: u8) -> Vec<u8> {
    let mut emu = with_registers([0x0E00 | al as u32, 0, 0, bl as u32, 0, 0, 0, 0]);
    let mut console = Console::new();
    assert_eq!(emu.bios_video(&mut console), Notice::Silent);
    assert_eq!(emu.registers, [0x0E00 | al as u32, 0, 0, bl as u32, 0, 0, 0, 0]);
    assert!(console.input.is_empty());
    console.output
}

#[test]
fn teletype_green_a() {
    assert_eq!(teletype(b'A', 0x02), b"\x1b[0;32mA\x1b[0m".to_vec());
}

#[test]
fn teletype_through_the_interrupt() {
    let mut emu = with_registers([0x0E41, 0, 0, 0x02, 0, 0, 0, 0]);
    let mut console = Console { input: vec![], output: vec![b'>'] };
    assert_eq!(emu.execute(Instruction::Int, &mut console), Ok(Notice::Silent));
    assert_eq!(emu.eip, 2);
    assert_eq!(console.output, b">\x1b[0;32mA\x1b[0m".to_vec());
}

#[test]
fn teletype_colour_table() {
    let codes = [30, 34, 32, 36, 31, 35, 33, 37];
    for color in 0..=255u8 {
        let bright = (color >> 3) & 1;
        let expected =
            format!("\x1b[{};{}mz\x1b[0m", bright, codes[(color & 7) as usize]).into_bytes();
        assert_eq!(teletype(b'z', color), expected);
    }
}

#[test]
fn teletype_bright_colours() {
    assert_eq!(teletype(b'!', 0x0F), b"\x1b[1;37m!\x1b[0m".to_vec());
    assert_eq!(teletype(b'!', 0x08), b"\x1b[1;30m!\x1b[0m".to_vec());
    // Only the low four bits of BL are the colour.
    assert_eq!(teletype(b'!', 0xF4), b"\x1b[0;31m!\x1b[0m".to_vec());
}

#[test]
fn teletype_characters() {
    for ch in 0..=255u8 {
        let expected = format!("\x1b[0;30m{}\x1b[0m", ch as char).into_bytes();
        assert_eq!(teletype(ch, 0), expected);
    }
    assert_eq!(teletype(0x7F, 0).len(), 12);
    assert_eq!(&teletype(0x80, 0)[7..9], &[0xC2, 0x80]);
    assert_eq!(&teletype(0xFF, 0)[7..9], &[0xC3, 0xBF]);
}

#[test]
fn other_bios_functions_are_reported() {
    for function in [0x00u8, 0x0D, 0x0F, 0xFF] {
        let mut emu = with_registers([(function as u32) << 8 | 0x41, 0, 0, 2, 0, 0, 0, 0]);
        let mut console = Console::new();
        assert_eq!(emu.bios_video(&mut console), Notice::UnimplementedBios(function));
        assert!(console.output.is_empty());
    }
}

#[test]
fn byte_register_indices() {
    assert_eq!(RegisterLow::AL.index(), 0);
    assert_eq!(RegisterLow::CL.index(), 1);
    assert_eq!(RegisterLow::DL.index(), 2);
    assert_eq!(RegisterLow::BL.index(), 3);
    assert_eq!(RegisterHigh::AH.index(), 4);
    assert_eq!(RegisterHigh::CH.index(), 5);
    assert_eq!(RegisterHigh::DH.index(), 6);
    assert_eq!(RegisterHigh::BH.index(), 7);
}

#[test]
fn put_string_writes_every_byte() {
    let mut console = Console { input: vec![9], output: vec![1] };
    put_string(&mut console, &vec![2, 3, 0xFF]);
    assert_eq!(console.output, vec![1, 2, 3, 0xFF]);
    assert_eq!(console.input, vec![9]);
    put_string(&mut console, &vec![]);
    assert_eq!(console.output, vec![1, 2, 3, 0xFF]);
}

#[test]
fn only_the_serial_port_is_wired_for_output() {
    assert_eq!(SERIAL_PORT, 0x03F8);
    let mut console = Console::new();
    io_out8(&mut console, 0x03F8, b'x');
    io_out8(&mut console, 0x03F9, b'y');
    io_out8(&mut console, 0x0000, b'y');
    io_out8(&mut console, 0xFFFF, b'y');
    io_out8(&mut console, 0x03F8, b'z');
    assert_eq!(console.output, b"xz".to_vec());
}

#[test]
fn only_the_serial_port_is_wired_for_input() {
    let mut console = Console { input: b"hello\n".to_vec(), output: vec![] };
    assert_eq!(io_in8(&mut console, 0x03F7), Ok(0));
    assert_eq!(io_in8(&mut console, 0), Ok(0));
    assert_eq!(console.input, b"hello\n".to_vec());
    assert_eq!(io_in8(&mut console, 0x03F8), Ok(b'h'));
    // The whole line is taken.
    assert!(console.input.is_empty());
    assert_eq!(io_in8(&mut console, 0x03F8), Err(Fault::NoInput));
    assert_eq!(io_in8(&mut console, 0x03F7), Ok(0));
    assert!(console.output.is_empty());
}

#[test]
fn in_al_dx_reads_into_al() {
    let mut emu = Emulator {
        registers: [0xAABB_CCDD, 0, 0xFFFF_03F8, 0, 0, 0, 0, 0],
        eflags: Eflags { raw: 0 },
        memory: vec![0xEC],
        eip: 0,
    };
    let mut console = Console { input: b"qw".to_vec(), output: vec![] };
    assert_eq!(emu.execute(Instruction::InAlDx, &mut console), Ok(Notice::Silent));
    // Only the low 16 bits of EDX are the port, and only AL is written.
    assert_eq!(emu.registers[0], 0xAABB_CC00 | b'q' as u32);
    assert_eq!(emu.eip, 1);
    assert!(console.input.is_empty());

    let mut emu = Emulator {
        registers: [0xAABB_CCDD, 0, 0x03F9, 0, 0, 0, 0, 0],
        eflags: Eflags { raw: 0 },
        memory: vec![0xEC],
        eip: 0,
    };
    let mut console = Console { input: b"qw".to_vec(), output: vec![] };
    assert_eq!(emu.execute(Instruction::InAlDx, &mut console), Ok(Notice::Silent));
    assert_eq!(emu.registers[0], 0xAABB_CC00);
    assert_eq!(console.input, b"qw".to_vec());
}

#[test]
fn out_dx_al_writes_al() {
    let mut emu = Emulator {
        registers: [0x1234_5641, 0, 0x0001_03F8, 0, 0, 0, 0, 0],
        eflags: Eflags { raw: 0 },
        memory: vec![0xEE],
        eip: 0,
    };
    let mut console = Console::new();
    assert_eq!(emu.execute(Instruction::OutDxAl, &mut console), Ok(Notice::Silent));
    assert_eq!(console.output, vec![0x41]);
    assert_eq!(emu.eip, 1);
    emu.registers[2] = 0x03F0;
    assert_eq!(emu.execute(Instruction::OutDxAl, &mut console), Ok(Notice::Silent));
    assert_eq!(console.output, vec![0x41]);
    assert_eq!(emu.eip, 2);
}
