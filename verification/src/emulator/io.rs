//! The port abstraction. A single serial port is wired to a console; every
//! other port reads as 0 and swallows what is written to it.
//!
//! The console is plain data: the line waiting to be read and the bytes
//! written so far. Whoever drives the interpreter fills the one and drains
//! the other.
use vstd::prelude::*;

use crate::emulator::Fault;

verus! {

/// Address of the serial port.
pub const SERIAL_PORT: u16 = 0x03F8;

/// The device behind the serial port.
#[derive(Debug, Clone)]
pub struct Console {
    /// The unit of input waiting at the port. A read takes all of it.
    pub input: Vec<u8>,
    /// Every byte written to the port, in order.
    pub output: Vec<u8>,
}

/// The console as mathematical values.
pub struct ConsoleState {
    pub input: Seq<u8>,
    pub output: Seq<u8>,
}

impl View for Console {
    type V = ConsoleState;

    open spec fn view(&self) -> ConsoleState {
        ConsoleState { input: self.input@, output: self.output@ }
    }
}

impl ConsoleState {
    /// The fault of reading port `addr`: the serial port with nothing
    /// waiting.
    pub open spec fn in_fault(self, addr: u16) -> Option<Fault> {
        if addr == SERIAL_PORT && self.input.len() == 0 {
            Some(Fault::NoInput)
        } else {
            None
        }
    }

    /// The byte that reading port `addr` returns: the first byte waiting at
    /// the serial port, 0 at any other port.
    pub open spec fn in_value(self, addr: u16) -> u8 {
        if addr == SERIAL_PORT {
            self.input[0]
        } else {
            0
        }
    }

    /// The console after port `addr` was read: the serial port's input is
    /// used up.
    pub open spec fn after_in(self, addr: u16) -> ConsoleState {
        if addr == SERIAL_PORT {
            ConsoleState { input: Seq::empty(), ..self }
        } else {
            self
        }
    }

    /// The console after `value` was written to port `addr`.
    pub open spec fn after_out(self, addr: u16, value: u8) -> ConsoleState {
        if addr == SERIAL_PORT {
            ConsoleState { output: self.output.push(value), ..self }
        } else {
            self
        }
    }

    /// The console after every byte of `bytes` was written to the serial
    /// port.
    pub open spec fn after_write(self, bytes: Seq<u8>) -> ConsoleState {
        ConsoleState { output: self.output + bytes, ..self }
    }
}

impl Console {
    /// A console with nothing to read and nothing written.
    pub fn new() -> (console: Console)
        ensures
            console@ == (ConsoleState { input: Seq::empty(), output: Seq::empty() }),
    {
        Console { input: Vec::new(), output: Vec::new() }
    }
}

/// Takes the input waiting at the serial port and returns its first byte.
fn getchar(console: &mut Console) -> (r: Result<u8, Fault>)
    ensures
        match old(console)@.in_fault(SERIAL_PORT) {
            Some(fault) => r == Err::<u8, Fault>(fault) && final(console)@ == old(console)@,
            None => r == Ok::<u8, Fault>(old(console)@.in_value(SERIAL_PORT)) && final(console)@
                == old(console)@.after_in(SERIAL_PORT),
        },
{
    if console.input.len() == 0 {
        Err(Fault::NoInput)
    } else {
        let first: u8 = console.input[0];
        console.input.clear();
        Ok(first)
    }
}

/// Appends `value` to what the serial port has written.
fn putchar(console: &mut Console, value: u8)
    ensures
        final(console)@ == old(console)@.after_out(SERIAL_PORT, value),
{
    console.output.push(value);
}

/// Reads one byte from port `addr`.
pub fn io_in8(console: &mut Console, addr: u16) -> (r: Result<u8, Fault>)
    ensures
        match old(console)@.in_fault(addr) {
            Some(fault) => r == Err::<u8, Fault>(fault) && final(console)@ == old(console)@,
            None => r == Ok::<u8, Fault>(old(console)@.in_value(addr)) && final(console)@ == old(
                console,
            )@.after_in(addr),
        },
{
    if addr == SERIAL_PORT {
        getchar(console)
    } else {
        Ok(0)
    }
}

/// Writes one byte to port `addr`.
pub fn io_out8(console: &mut Console, addr: u16, value: u8)
    ensures
        final(console)@ == old(console)@.after_out(addr, value),
{
    if addr == SERIAL_PORT {
        putchar(console, value);
    }
}

} // verus!
