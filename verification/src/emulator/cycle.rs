//! The execution loop: fetch the opcode at the instruction pointer, look up
//! its operation, execute it, and go on until the program halts.
use vstd::prelude::*;

use crate::emulator::instruction::{decode, execute_spec, instructions, Instruction};
use crate::emulator::bits::lemma_low_word;
use crate::emulator::io::{Console, ConsoleState, SERIAL_PORT};
use crate::emulator::machine::Machine;
use crate::emulator::semantics::dx_port;
use crate::emulator::{Emulator, Fault, Notice, RunFlags, TraceMode};

verus! {

/// What one turn of the loop did.
#[derive(Debug, Clone, Copy, PartialEq, Eq)]
pub enum Step {
    /// The instruction pointer stands at or behind the limit. Nothing was
    /// fetched.
    EndOfMemory,
    /// The opcode lies outside memory.
    FetchFault { fault: Fault },
    /// The opcode has no operation. Nothing was executed.
    Trap { opcode: u8 },
    /// The instruction met a fault and changed nothing.
    Abort { opcode: u8, inst: Instruction, fault: Fault },
    /// The instruction completed.
    Done { opcode: u8, inst: Instruction, notice: Notice },
}

/// Why a run stopped.
#[derive(Debug, Clone, Copy, PartialEq, Eq)]
pub enum Halt {
    /// An instruction left the instruction pointer at 0: the program is
    /// complete.
    Finished,
    /// The instruction pointer reached the limit.
    EndOfMemory,
    /// An opcode without an operation was fetched.
    Trap { opcode: u8 },
    /// A fault stopped an instruction, or the fetch of its opcode.
    Abort { fault: Fault },
    /// The step budget was used up; the run can be taken up again.
    OutOfSteps,
}

/// The registers, flags and instruction pointer at one moment.
#[derive(Debug, Clone, Copy, PartialEq, Eq)]
pub struct Snapshot {
    pub eax: u32,
    pub ecx: u32,
    pub edx: u32,
    pub ebx: u32,
    pub esp: u32,
    pub ebp: u32,
    pub esi: u32,
    pub edi: u32,
    pub eflags: u32,
    pub eip: u32,
}

/// One entry of a run's trace.
#[derive(Debug, Clone, Copy, PartialEq, Eq)]
pub enum TraceEvent {
    /// An opcode was fetched at `eip`.
    Fetch { eip: u32, opcode: u8 },
    /// A completed instruction had something to report.
    Reported { notice: Notice },
    /// An instruction completed; `after` is the state it left.
    Executed { inst: Instruction, after: Snapshot },
    /// The opcode fetched has no operation.
    NotImplemented { opcode: u8 },
    /// The program is complete.
    EndOfProgram,
}

/// What a run leaves behind, beside the machine and the console.
#[derive(Debug)]
pub struct Report {
    pub halt: Halt,
    pub events: Vec<TraceEvent>,
}

/// Where a run stands, as mathematical values.
pub struct Run {
    pub machine: Machine,
    pub console: ConsoleState,
    pub events: Seq<TraceEvent>,
    pub halt: Halt,
}

/// The snapshot of machine `m`.
pub open spec fn snapshot(m: Machine) -> Snapshot {
    Snapshot {
        eax: m.regs[0],
        ecx: m.regs[1],
        edx: m.regs[2],
        ebx: m.regs[3],
        esp: m.regs[4],
        ebp: m.regs[5],
        esi: m.regs[6],
        edi: m.regs[7],
        eflags: m.flags,
        eip: m.eip,
    }
}

/// One turn of the loop on machine `m` with console `c`: nothing when the
/// instruction pointer has reached `limit`; else the opcode is fetched, its
/// operation looked up and executed.
#[verifier::opaque]
pub open spec fn step_spec(m: Machine, c: ConsoleState, limit: int) -> (Machine, ConsoleState, Step) {
    if m.eip >= limit {
        (m, c, Step::EndOfMemory)
    } else if m.code_fault(0, 1) is Some {
        (m, c, Step::FetchFault { fault: m.code_fault(0, 1).unwrap() })
    } else {
        match decode(m.code8(0)) {
            None => (m, c, Step::Trap { opcode: m.code8(0) }),
            Some(inst) => match execute_spec(m, c, inst) {
                Err(fault) => (m, c, Step::Abort { opcode: m.code8(0), inst, fault }),
                Ok(effect) => (
                    effect.machine,
                    effect.console,
                    Step::Done { opcode: m.code8(0), inst, notice: effect.notice },
                ),
            },
        }
    }
}

/// Whether the turn `step`, which left the machine `after`, stops the run,
/// and why. A completed instruction stops it when it left the instruction
/// pointer at 0.
pub open spec fn halt_of(step: Step, after: Machine) -> Option<Halt> {
    match step {
        Step::EndOfMemory => Some(Halt::EndOfMemory),
        Step::FetchFault { fault } => Some(Halt::Abort { fault }),
        Step::Trap { opcode } => Some(Halt::Trap { opcode }),
        Step::Abort { opcode, inst, fault } => Some(Halt::Abort { fault }),
        Step::Done { opcode, inst, notice } => if after.eip == 0 {
            Some(Halt::Finished)
        } else {
            None
        },
    }
}

/// The trace of one turn in mode `mode`. The turn began with the
/// instruction pointer at `eip` and left the machine `after`.
///
/// Every mode traces an opcode without operation and what an instruction
/// reports. The default mode adds the fetch of each opcode and the end of
/// the program; the verbose mode adds each executed instruction with the
/// state it left.
pub open spec fn step_events(mode: TraceMode, eip: u32, step: Step, after: Machine) -> Seq<
    TraceEvent,
> {
    match step {
        Step::EndOfMemory => Seq::empty(),
        Step::FetchFault { fault } => Seq::empty(),
        Step::Trap { opcode } => fetch_event(mode, eip, opcode).push(
            TraceEvent::NotImplemented { opcode },
        ),
        Step::Abort { opcode, inst, fault } => fetch_event(mode, eip, opcode),
        Step::Done { opcode, inst, notice } => fetch_event(mode, eip, opcode) + notice_event(notice)
            + executed_event(mode, inst, after) + end_event(mode, after),
    }
}

pub open spec fn fetch_event(mode: TraceMode, eip: u32, opcode: u8) -> Seq<TraceEvent> {
    if mode == TraceMode::Quiet {
        Seq::empty()
    } else {
        seq![TraceEvent::Fetch { eip, opcode }]
    }
}

pub open spec fn notice_event(notice: Notice) -> Seq<TraceEvent> {
    if notice == Notice::Silent {
        Seq::empty()
    } else {
        seq![TraceEvent::Reported { notice }]
    }
}

pub open spec fn executed_event(mode: TraceMode, inst: Instruction, after: Machine) -> Seq<
    TraceEvent,
> {
    if mode == TraceMode::Verbose {
        seq![TraceEvent::Executed { inst, after: snapshot(after) }]
    } else {
        Seq::empty()
    }
}

pub open spec fn end_event(mode: TraceMode, after: Machine) -> Seq<TraceEvent> {
    if after.eip == 0 && mode != TraceMode::Quiet {
        seq![TraceEvent::EndOfProgram]
    } else {
        Seq::empty()
    }
}

/// A run of at most `fuel` turns from machine `m` with console `c`: where it
/// ends, what it traced, and why it stopped.
pub open spec fn run_spec(m: Machine, c: ConsoleState, limit: int, mode: TraceMode, fuel: nat) -> Run
    decreases fuel,
{
    if fuel == 0 {
        Run { machine: m, console: c, events: Seq::empty(), halt: Halt::OutOfSteps }
    } else {
        let (m1, c1, step) = step_spec(m, c, limit);
        let events = step_events(mode, m.eip, step, m1);
        match halt_of(step, m1) {
            Some(halt) => Run { machine: m1, console: c1, events, halt },
            None => {
                let rest = run_spec(m1, c1, limit, mode, (fuel - 1) as nat);
                Run { events: events + rest.events, ..rest }
            },
        }
    }
}

/// The trace mode decides what is traced and nothing else: two runs that
/// differ only in it end with the same machine and console and stop for the
/// same reason.
pub proof fn lemma_trace_mode_is_inert(
    m: Machine,
    c: ConsoleState,
    limit: int,
    mode1: TraceMode,
    mode2: TraceMode,
    fuel: nat,
)
    ensures
        run_spec(m, c, limit, mode1, fuel).machine == run_spec(m, c, limit, mode2, fuel).machine,
        run_spec(m, c, limit, mode1, fuel).console == run_spec(m, c, limit, mode2, fuel).console,
        run_spec(m, c, limit, mode1, fuel).halt == run_spec(m, c, limit, mode2, fuel).halt,
    decreases fuel,
{
    if fuel > 0 {
        let (m1, c1, step) = step_spec(m, c, limit);
        if halt_of(step, m1) is None {
            lemma_trace_mode_is_inert(m1, c1, limit, mode1, mode2, (fuel - 1) as nat);
        }
    }
}

/// What a quiet run may trace: an opcode without operation, or what an
/// instruction reports.
pub open spec fn traced_when_quiet(event: TraceEvent) -> bool {
    event is NotImplemented || event is Reported
}

/// A quiet run traces nothing but opcodes without operation and what
/// instructions report.
pub proof fn lemma_quiet_trace(m: Machine, c: ConsoleState, limit: int, fuel: nat)
    ensures
        forall|i: int|
            0 <= i < run_spec(m, c, limit, TraceMode::Quiet, fuel).events.len()
                ==> traced_when_quiet(
                #[trigger] run_spec(m, c, limit, TraceMode::Quiet, fuel).events[i],
            ),
    decreases fuel,
{
    if fuel > 0 {
        let (m1, c1, step) = step_spec(m, c, limit);
        if halt_of(step, m1) is None {
            lemma_quiet_trace(m1, c1, limit, (fuel - 1) as nat);
        }
    }
}

/// `Vec::capacity`: the number of bytes the buffer can hold without
/// allocating again. It is never less than the buffer's length; nothing
/// else is said of it, for it is the allocator's choice.
#[verifier::external_body]
fn capacity(memory: &Vec<u8>) -> (c: usize)
    ensures
        c >= memory@.len(),
{
    memory.capacity()
}

impl Emulator {
    /// The registers, flags and instruction pointer as they stand.
    pub fn snapshot(&self) -> (s: Snapshot)
        ensures
            s == snapshot(self@),
    {
        Snapshot {
            eax: self.registers[0],
            ecx: self.registers[1],
            edx: self.registers[2],
            ebx: self.registers[3],
            esp: self.registers[4],
            ebp: self.registers[5],
            esi: self.registers[6],
            edi: self.registers[7],
            eflags: self.eflags.raw,
            eip: self.eip,
        }
    }

    /// Whether the next turn reads the serial port: the opcode at the
    /// instruction pointer is `in al, dx` and DX holds the port's address.
    /// Whoever drives the run then has to supply the console's input.
    pub fn awaits_input(&self, limit: usize) -> (r: bool)
        ensures
            r == (self@.eip < limit && self@.code_fault(0, 1) is None && decode(self@.code8(0))
                == Some(Instruction::InAlDx) && dx_port(self@) == SERIAL_PORT),
    {
        if self.eip as usize >= limit || self.code_fault(0, 1).is_some() {
            return false;
        }
        let edx: u32 = self.get_register32(2);
        proof {
            lemma_low_word(edx);
        }
        self.get_code8(0) == 0xEC && (edx & 0xFFFF) as u16 == SERIAL_PORT
    }

    /// One turn of the loop. `limit` is the address at which the run ends
    /// of itself.
    pub fn step(&mut self, console: &mut Console, limit: usize) -> (step: Step)
        ensures
            step_spec(old(self)@, old(console)@, limit as int) == (
                final(self)@,
                final(console)@,
                step,
            ),
    {
        proof {
            reveal(step_spec);
        }
        if self.eip as usize >= limit {
            return Step::EndOfMemory;
        }
        if let Some(fault) = self.code_fault(0, 1) {
            return Step::FetchFault { fault };
        }
        let opcode: u8 = self.get_code8(0);
        match instructions(opcode) {
            None => Step::Trap { opcode },
            Some(inst) => match self.execute(inst, console) {
                Err(fault) => Step::Abort { opcode, inst, fault },
                Ok(notice) => Step::Done { opcode, inst, notice },
            },
        }
    }

    /// Appends to `events` the trace of the turn `step`, which began with
    /// the instruction pointer at `eip` and left the machine as it stands.
    fn record(&self, mode: TraceMode, eip: u32, step: Step, events: &mut Vec<TraceEvent>)
        ensures
            final(events)@ == old(events)@ + step_events(mode, eip, step, self@),
    {
        let tracing: bool = match mode {
            TraceMode::Quiet => false,
            _ => true,
        };
        let detailed: bool = match mode {
            TraceMode::Verbose => true,
            _ => false,
        };
        match step {
            Step::EndOfMemory => {},
            Step::FetchFault { fault } => {},
            Step::Trap { opcode } => {
                if tracing {
                    events.push(TraceEvent::Fetch { eip, opcode });
                }
                events.push(TraceEvent::NotImplemented { opcode });
            },
            Step::Abort { opcode, inst, fault } => {
                if tracing {
                    events.push(TraceEvent::Fetch { eip, opcode });
                }
            },
            Step::Done { opcode, inst, notice } => {
                if tracing {
                    events.push(TraceEvent::Fetch { eip, opcode });
                }
                match notice {
                    Notice::Silent => {},
                    _ => {
                        events.push(TraceEvent::Reported { notice });
                    },
                }
                if detailed {
                    events.push(TraceEvent::Executed { inst, after: self.snapshot() });
                }
                if self.eip == 0 && tracing {
                    events.push(TraceEvent::EndOfProgram);
                }
            },
        }
        assert(events@ =~= old(events)@ + step_events(mode, eip, step, self@));
    }

    /// Runs at most `max_steps` turns in trace mode `mode`, ending of itself
    /// when the instruction pointer reaches `limit`.
    #[verifier::rlimit(50)]
    pub fn run_within(
        &mut self,
        mode: TraceMode,
        console: &mut Console,
        limit: usize,
        max_steps: usize,
    ) -> (report: Report)
        ensures
            run_spec(old(self)@, old(console)@, limit as int, mode, max_steps as nat) == (Run {
                machine: final(self)@,
                console: final(console)@,
                events: report.events@,
                halt: report.halt,
            }),
    {
        let mut events: Vec<TraceEvent> = Vec::new();
        let mut halt: Option<Halt> = None;
        let mut turns: usize = 0;
        while halt.is_none() && turns < max_steps
            invariant
                turns <= max_steps,
                match halt {
                    Some(h) => run_spec(
                        old(self)@,
                        old(console)@,
                        limit as int,
                        mode,
                        max_steps as nat,
                    ) == (Run {
                        machine: self@,
                        console: console@,
                        events: events@,
                        halt: h,
                    }),
                    None => run_spec(
                        old(self)@,
                        old(console)@,
                        limit as int,
                        mode,
                        max_steps as nat,
                    ) == (Run {
                        events: events@ + run_spec(
                            self@,
                            console@,
                            limit as int,
                            mode,
                            (max_steps - turns) as nat,
                        ).events,
                        ..run_spec(self@, console@, limit as int, mode, (max_steps - turns) as nat)
                    }),
                },
            decreases max_steps - turns,
        {
            let ghost before = self@;
            let ghost console_before = console@;
            let ghost traced = events@;
            let eip: u32 = self.eip;
            let step: Step = self.step(console, limit);
            self.record(mode, eip, step, &mut events);
            halt = match step {
                Step::EndOfMemory => Some(Halt::EndOfMemory),
                Step::FetchFault { fault } => Some(Halt::Abort { fault }),
                Step::Trap { opcode } => Some(Halt::Trap { opcode }),
                Step::Abort { opcode, inst, fault } => Some(Halt::Abort { fault }),
                Step::Done { opcode, inst, notice } => if self.eip == 0 {
                    Some(Halt::Finished)
                } else {
                    None
                },
            };
            proof {
                let fuel = (max_steps - turns) as nat;
                let here = run_spec(before, console_before, limit as int, mode, fuel);
                let turn = step_events(mode, eip, step, self@);
                assert(halt == halt_of(step, self@));
                if halt is None {
                    let rest = run_spec(self@, console@, limit as int, mode, (fuel - 1) as nat);
                    assert(here.events == turn + rest.events);
                    assert(traced + (turn + rest.events) =~= (traced + turn) + rest.events);
                } else {
                    assert(here.events == turn);
                }
            }
            turns = turns + 1;
        }
        let halt: Halt = match halt {
            Some(h) => h,
            None => Halt::OutOfSteps,
        };
        proof {
            assert(events@ + Seq::<TraceEvent>::empty() =~= events@);
        }
        Report { halt, events }
    }

    /// A run that traces nothing but what stops it.
    fn quiet(&mut self, console: &mut Console, limit: usize, max_steps: usize) -> (report: Report)
        ensures
            run_spec(
                old(self)@,
                old(console)@,
                limit as int,
                TraceMode::Quiet,
                max_steps as nat,
            ) == (Run {
                machine: final(self)@,
                console: final(console)@,
                events: report.events@,
                halt: report.halt,
            }),
    {
        self.run_within(TraceMode::Quiet, console, limit, max_steps)
    }

    /// A run that traces every instruction with the state it left.
    fn verbose(&mut self, console: &mut Console, limit: usize, max_steps: usize) -> (report: Report)
        ensures
            run_spec(
                old(self)@,
                old(console)@,
                limit as int,
                TraceMode::Verbose,
                max_steps as nat,
            ) == (Run {
                machine: final(self)@,
                console: final(console)@,
                events: report.events@,
                halt: report.halt,
            }),
    {
        self.run_within(TraceMode::Verbose, console, limit, max_steps)
    }

    /// A run that traces the fetch of every opcode.
    fn default(&mut self, console: &mut Console, limit: usize, max_steps: usize) -> (report: Report)
        ensures
            run_spec(
                old(self)@,
                old(console)@,
                limit as int,
                TraceMode::Default,
                max_steps as nat,
            ) == (Run {
                machine: final(self)@,
                console: final(console)@,
                events: report.events@,
                halt: report.halt,
            }),
    {
        self.run_within(TraceMode::Default, console, limit, max_steps)
    }

    /// Runs the program for at most `max_steps` turns, traced as `flag`
    /// asks. The run ends of itself where the memory buffer's capacity
    /// ends, which is at or behind the end of memory.
    pub fn run(&mut self, flag: RunFlags, console: &mut Console, max_steps: usize) -> (report:
        Report)
        ensures
            exists|limit: int|
                limit >= old(self)@.mem.len() && #[trigger] run_spec(
                    old(self)@,
                    old(console)@,
                    limit,
                    flag.spec_mode(),
                    max_steps as nat,
                ) == (Run {
                    machine: final(self)@,
                    console: final(console)@,
                    events: report.events@,
                    halt: report.halt,
                }),
    {
        let limit: usize = capacity(&self.memory);
        if flag.quiet {
            self.quiet(console, limit, max_steps)
        } else if flag.verbose {
            self.verbose(console, limit, max_steps)
        } else {
            self.default(console, limit, max_steps)
        }
    }
}

} // verus!
