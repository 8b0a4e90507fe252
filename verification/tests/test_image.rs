use aria::emulator::dump::hex;
use aria::emulator::{Eflags, Emulator, ORG};

#[test]
fn new_machine_is_empty() {
    let emu = Emulator::new(64, 0x7C00, 0x7C00);
    assert_eq!(emu.registers, [0, 0, 0, 0, 0x7C00, 0, 0, 0]);
    assert_eq!(emu.eflags.raw, 0);
    assert_eq!(emu.eip, 0x7C00);
    assert!(emu.memory.is_empty());
    assert!(emu.memory.capacity() >= 64 + 0x7C00);
}

#[test]
fn load_puts_the_image_behind_the_reserved_region() {
    assert_eq!(ORG, 0x7C00);
    assert_eq!(ORG, 31744);
    let mut emu = Emulator::new(3, ORG as u32, ORG as u32);
    let mut image = vec![0xB8, 0x01, 0x02];
    emu.load(&mut image);
    assert!(image.is_empty());
    assert_eq!(emu.memory.len(), ORG + 3);
    assert!(emu.memory[..ORG].iter().all(|&b| b == 0));
    assert_eq!(&emu.memory[ORG..], &[0xB8, 0x01, 0x02]);
    assert_eq!(emu.get_code8(0), 0xB8);
    assert_eq!(emu.eip, ORG as u32);
    assert_eq!(emu.registers[4], ORG as u32);
}

#[test]
fn raw_load_appends() {
    let mut emu = Emulator::new(4, 0, 0);
    let mut first = vec![1, 2];
    let mut second = vec![3];
    emu.raw_load(&mut first);
    emu.raw_load(&mut second);
    assert!(first.is_empty() && second.is_empty());
    assert_eq!(emu.memory, vec![1, 2, 3]);
}

#[test]
fn memory_is_little_endian() {
    let mut emu = Emulator {
        registers: [0; 8],
        eflags: Eflags { raw: 0 },
        memory: vec![0xEE; 6],
        eip: 1,
    };
    emu.set_memory32(1, 0x0102_0304);
    assert_eq!(emu.memory, vec![0xEE, 0x04, 0x03, 0x02, 0x01, 0xEE]);
    assert_eq!(emu.get_memory8(1), 0x04);
    assert_eq!(emu.get_memory8(4), 0x01);
    assert_eq!(emu.get_memory32(1), 0x0102_0304);
    // Code reads are relative to the instruction pointer and leave it alone.
    assert_eq!(emu.get_code8(0), 0x04);
    assert_eq!(emu.get_code32(0), 0x0102_0304);
    assert_eq!(emu.get_code8(4), 0xEE);
    assert_eq!(emu.eip, 1);
    emu.set_memory32(2, 0xFFFF_FFFF);
    assert_eq!(emu.get_sign_code32(1), -1);
    assert_eq!(emu.get_sign_code8(1), -1);
    emu.set_memory8(2, 0x1234_567F);
    assert_eq!(emu.get_sign_code8(1), 0x7F);
    emu.set_memory8(2, 0x80);
    assert_eq!(emu.get_sign_code8(1), -128);
    emu.set_memory32(2, 0x8000_0000);
    assert_eq!(emu.get_sign_code32(1), i32::MIN);
    emu.set_memory32(2, 0x7FFF_FFFF);
    assert_eq!(emu.get_sign_code32(1), i32::MAX);
}

#[test]
fn hex_has_eight_upper_case_digits() {
    assert_eq!(hex(0), "00000000");
    assert_eq!(hex(0x9ABC_DEF0), "9ABCDEF0");
    assert_eq!(hex(0x0123_4567), "01234567");
    assert_eq!(hex(0xFFFF_FFFF), "FFFFFFFF");
    assert_eq!(hex(0x7C00), "00007C00");
    for v in [1u32, 0x10, 0xDEAD_BEEF, 0x8000_0001] {
        assert_eq!(hex(v), format!("{:08X}", v));
    }
}

#[test]
fn dump_lists_registers_flags_and_eip() {
    let emu = Emulator {
        registers: [
            0x0123_4567,
            0x89AB_CDEF,
            2,
            3,
            0x7C00,
            5,
            6,
            0xFFFF_FFFF,
        ],
        eflags: Eflags { raw: 0x8C1 },
        memory: vec![1, 2, 3],
        eip: 0x7C05,
    };
    let expected = "Emulator\n\
        \tregisters\n\
        \t\tEAX: 0x01234567\n\
        \t\tECX: 0x89ABCDEF\n\
        \t\tEDX: 0x00000002\n\
        \t\tEBX: 0x00000003\n\
        \t\tESP: 0x00007C00\n\
        \t\tEBP: 0x00000005\n\
        \t\tESI: 0x00000006\n\
        \t\tEDI: 0xFFFFFFFF\n\
        \teflags:  0x000008C1\n\
        \tmemory:  <Ommited>\n\
        \teip:     0x00007C05\n";
    assert_eq!(emu.to_string(), expected);
}
