//! The state dump: registers, flags and instruction pointer as text.
use vstd::prelude::*;
use vstd::string::StringExecFns;

use crate::emulator::machine::Machine;
use crate::emulator::Emulator;

verus! {

/// The hexadecimal digit of `n`, in upper case.
pub open spec fn hex_digit(n: int) -> Seq<char> {
    if n == 0 {
        "0"@
    } else if n == 1 {
        "1"@
    } else if n == 2 {
        "2"@
    } else if n == 3 {
        "3"@
    } else if n == 4 {
        "4"@
    } else if n == 5 {
        "5"@
    } else if n == 6 {
        "6"@
    } else if n == 7 {
        "7"@
    } else if n == 8 {
        "8"@
    } else if n == 9 {
        "9"@
    } else if n == 10 {
        "A"@
    } else if n == 11 {
        "B"@
    } else if n == 12 {
        "C"@
    } else if n == 13 {
        "D"@
    } else if n == 14 {
        "E"@
    } else {
        "F"@
    }
}

/// `v` as eight hexadecimal digits, most significant first.
pub open spec fn hex_text(v: u32) -> Seq<char> {
    hex_digit(v as int / 0x1000_0000 % 16) + hex_digit(v as int / 0x100_0000 % 16) + hex_digit(
        v as int / 0x10_0000 % 16,
    ) + hex_digit(v as int / 0x1_0000 % 16) + hex_digit(v as int / 0x1000 % 16) + hex_digit(
        v as int / 0x100 % 16,
    ) + hex_digit(v as int / 0x10 % 16) + hex_digit(v as int % 16)
}

/// The dump of machine `m`: a heading, one line for each register, and a
/// line each for the flags, the memory (whose content is left out) and the
/// instruction pointer.
pub open spec fn dump_text(m: Machine) -> Seq<char> {
    "Emulator\n\tregisters\n\t\tEAX: 0x"@ + hex_text(m.regs[0]) + "\n\t\tECX: 0x"@ + hex_text(
        m.regs[1],
    ) + "\n\t\tEDX: 0x"@ + hex_text(m.regs[2]) + "\n\t\tEBX: 0x"@ + hex_text(m.regs[3])
        + "\n\t\tESP: 0x"@ + hex_text(m.regs[4]) + "\n\t\tEBP: 0x"@ + hex_text(m.regs[5])
        + "\n\t\tESI: 0x"@ + hex_text(m.regs[6]) + "\n\t\tEDI: 0x"@ + hex_text(m.regs[7])
        + "\n\teflags:  0x"@ + hex_text(m.flags) + "\n\tmemory:  <Ommited>\n\teip:     0x"@
        + hex_text(m.eip) + "\n"@
}

fn digit(n: u32) -> (s: &'static str)
    requires
        n < 16,
    ensures
        s@ == hex_digit(n as int),
{
    match n {
        0 => "0",
        1 => "1",
        2 => "2",
        3 => "3",
        4 => "4",
        5 => "5",
        6 => "6",
        7 => "7",
        8 => "8",
        9 => "9",
        10 => "A",
        11 => "B",
        12 => "C",
        13 => "D",
        14 => "E",
        _ => "F",
    }
}

/// `v` as eight hexadecimal digits.
pub fn hex(v: u32) -> (s: String)
    ensures
        s@ == hex_text(v),
{
    let mut s: String = String::new();
    s.append(digit(v / 0x1000_0000 % 16));
    s.append(digit(v / 0x100_0000 % 16));
    s.append(digit(v / 0x10_0000 % 16));
    s.append(digit(v / 0x1_0000 % 16));
    s.append(digit(v / 0x1000 % 16));
    s.append(digit(v / 0x100 % 16));
    s.append(digit(v / 0x10 % 16));
    s.append(digit(v % 16));
    assert(s@ =~= hex_text(v));
    s
}

impl Emulator {
    /// The state dump.
    #[verifier::rlimit(50)]
    pub fn to_string(&self) -> (s: String)
        ensures
            s@ == dump_text(self@),
    {
        let mut s: String = String::new();
        s.append("Emulator\n\tregisters\n\t\tEAX: 0x");
        s.append(hex(self.registers[0]).as_str());
        s.append("\n\t\tECX: 0x");
        s.append(hex(self.registers[1]).as_str());
        s.append("\n\t\tEDX: 0x");
        s.append(hex(self.registers[2]).as_str());
        s.append("\n\t\tEBX: 0x");
        s.append(hex(self.registers[3]).as_str());
        s.append("\n\t\tESP: 0x");
        s.append(hex(self.registers[4]).as_str());
        s.append("\n\t\tEBP: 0x");
        s.append(hex(self.registers[5]).as_str());
        s.append("\n\t\tESI: 0x");
        s.append(hex(self.registers[6]).as_str());
        s.append("\n\t\tEDI: 0x");
        s.append(hex(self.registers[7]).as_str());
        s.append("\n\teflags:  0x");
        s.append(hex(self.eflags.raw).as_str());
        s.append("\n\tmemory:  <Ommited>\n\teip:     0x");
        s.append(hex(self.eip).as_str());
        s.append("\n");
        assert(s@ =~= dump_text(self@));
        s
    }
}

} // verus!
