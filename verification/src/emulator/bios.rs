//! The BIOS bridge: video service 0x10, of which only teletype output is
//! implemented.
use vstd::prelude::*;

use crate::emulator::io::{io_out8, Console, ConsoleState, SERIAL_PORT};
use crate::emulator::machine::Machine;
use crate::emulator::{Emulator, Notice, RegisterHigh, RegisterLow};

verus! {

/// BIOS function number (in AH) of teletype output.
pub const TELETYPE: u8 = 0x0E;

/// The terminal colour codes, indexed by the low three bits of a BIOS
/// colour.
pub open spec fn color_table() -> Seq<u8> {
    seq![30u8, 34u8, 32u8, 36u8, 31u8, 35u8, 33u8, 37u8]
}

/// The terminal colour code of BIOS colour `color`.
pub open spec fn terminal_color(color: u8) -> u8 {
    color_table()[(color % 8) as int]
}

/// The bytes that stand for character code `ch` on the terminal: the code
/// itself below 0x80, the two-byte UTF-8 form of that code point above.
pub open spec fn char_bytes(ch: u8) -> Seq<u8> {
    if ch < 0x80 {
        seq![ch]
    } else {
        seq![(0xC0 + ch / 64) as u8, (0x80 + ch % 64) as u8]
    }
}

/// What teletype output sends for a character in a colour: escape, `[`, the
/// bright flag (bit 3 of the colour) as a digit, `;`, the terminal colour
/// code in decimal, `m`, the character, and the reset sequence escape,
/// `[0m`.
pub open spec fn teletype_bytes(color: u8, ch: u8) -> Seq<u8> {
    let bright = color / 8 % 2;
    let code = terminal_color(color);
    seq![
        0x1Bu8,
        0x5Bu8,
        (0x30 + bright) as u8,
        0x3Bu8,
        (0x30 + code / 10) as u8,
        (0x30 + code % 10) as u8,
        0x6Du8,
    ] + char_bytes(ch) + seq![0x1Bu8, 0x5Bu8, 0x30u8, 0x6Du8]
}

/// The effect of video service 0x10 on the console: teletype output when AH
/// is 0x0E, nothing otherwise.
pub open spec fn bios_video_console(m: Machine, c: ConsoleState) -> ConsoleState {
    if m.reg8(4) == TELETYPE {
        c.after_write(teletype_bytes(m.reg8(3), m.reg8(0)))
    } else {
        c
    }
}

/// What video service 0x10 reports: the function number when it is not
/// implemented.
pub open spec fn bios_video_notice(m: Machine) -> Notice {
    if m.reg8(4) == TELETYPE {
        Notice::Silent
    } else {
        Notice::UnimplementedBios(m.reg8(4))
    }
}

proof fn lemma_color_bits(color: u8, ch: u8)
    by (bit_vector)
    ensures
        ((color & 0x0F) & 0x07) == color % 8,
        ((color & 0x0F) & 0x08 > 0) == (color / 8 % 2 == 1),
        color / 8 % 2 <= 1,
        ch >= 0x80 ==> (0xC0 | (ch >> 6)) == 0xC0 + ch / 64,
        ch >= 0x80 ==> (0x80 | (ch & 0x3F)) == 0x80 + ch % 64,
{
}

/// Writes every byte of `s` to the serial port.
pub fn put_string(console: &mut Console, s: &Vec<u8>)
    ensures
        final(console)@ == old(console)@.after_write(s@),
{
    let mut i: usize = 0;
    while i < s.len()
        invariant
            i <= s.len(),
            console@ == old(console)@.after_write(s@.subrange(0, i as int)),
        decreases s.len() - i,
    {
        io_out8(console, SERIAL_PORT, s[i]);
        assert(s@.subrange(0, i + 1) =~= s@.subrange(0, i as int).push(s@[i as int]));
        assert(console@.output =~= old(console)@.output + s@.subrange(0, i + 1));
        i = i + 1;
    }
    assert(s@.subrange(0, i as int) =~= s@);
}

impl Emulator {
    /// Teletype output: sends the character in AL to the serial port, in the
    /// colour in BL.
    #[verifier::rlimit(50)]
    fn bios_video_teletype(&mut self, console: &mut Console)
        ensures
            final(console)@ == old(console)@.after_write(
                teletype_bytes(old(self)@.reg8(3), old(self)@.reg8(0)),
            ),
            *final(self) == *old(self),
    {
        let color: u8 = self.get_register8(RegisterLow::BL.index()) & 0x0F;
        let ch: u8 = self.get_register8(RegisterLow::AL.index());
        proof {
            lemma_color_bits(self@.reg8(3), ch);
        }
        let table: [u8; 8] = [30, 34, 32, 36, 31, 35, 33, 37];
        assert(table@ =~= color_table());
        let terminal_color: u8 = table[(color & 0x07) as usize];
        let bright: u8 = if (color & 0x08) > 0 {
            1
        } else {
            0
        };
        let mut s: Vec<u8> = Vec::new();
        s.push(0x1B);
        s.push(0x5B);
        s.push(0x30 + bright);
        s.push(0x3B);
        s.push(0x30 + terminal_color / 10);
        s.push(0x30 + terminal_color % 10);
        s.push(0x6D);
        if ch < 0x80 {
            s.push(ch);
        } else {
            s.push(0xC0 | (ch >> 6));
            s.push(0x80 | (ch & 0x3F));
        }
        s.push(0x1B);
        s.push(0x5B);
        s.push(0x30);
        s.push(0x6D);
        assert(s@ =~= teletype_bytes(self@.reg8(3), ch));
        put_string(console, &s);
    }

    /// Video service 0x10: teletype output when AH is 0x0E; any other
    /// function is reported and does nothing.
    pub fn bios_video(&mut self, console: &mut Console) -> (notice: Notice)
        ensures
            notice == bios_video_notice(old(self)@),
            final(console)@ == bios_video_console(old(self)@, old(console)@),
            *final(self) == *old(self),
    {
        let function: u8 = self.get_register8(RegisterHigh::AH.index());
        if function == TELETYPE {
            self.bios_video_teletype(console);
            Notice::Silent
        } else {
            Notice::UnimplementedBios(function)
        }
    }
}

} // verus!
