//! The trap dispatcher: what a trap is, and how execution goes on after it.

use crate::drivers::clint::{lemma_rearm_sets_compare, rearmed, MTIME, MTIMECMP, TICK};
use crate::drivers::virt_uart::{lemma_transmit_delivers, transmit, write_bytes};
use crate::halt::{
    halted, lemma_halt_signals_once, lemma_stores_of_halt_path, Location, HALT, HALT_SIGNAL,
};
use crate::mmio::{lemma_received_one, received, Store};
use crate::render::{decimal, hex, push_bytes, push_decimal, push_hex};
use vstd::prelude::*;
use vstd::string::StringSliceAdditionalSpecFns;

verus! {

/// The state of a hart at trap entry, as the entry sequence saved it.
#[derive(Clone, Copy)]
pub struct TrapFrame {
    /// The general-purpose registers `x0` to `x31`.
    pub regs: [u64; 32],
    /// The floating-point registers `f0` to `f31`.
    pub fregs: [u64; 32],
    /// The address-translation control value in force when the hart trapped.
    pub satp: u64,
    /// Address of the stack that trap handling runs on.
    pub trap_stack: u64,
    /// The hart that trapped.
    pub hartid: u64,
}

/// Bytes by which the resume address moves past an instruction that is skipped.
pub const INSTRUCTION_WIDTH: u64 = 4;

/// Whether `cause` reports an interrupt: its highest bit is set.
pub open spec fn is_async(cause: u64) -> bool {
    (cause >> 63) & 1 == 1
}

/// The cause number of `cause`: its low twelve bits.
pub open spec fn cause_number(cause: u64) -> u64 {
    cause & 0xfff
}

/// What a trap is, by origin and cause number.
#[derive(Clone, Copy, Debug, PartialEq, Eq, Structural)]
pub enum Trap {
    /// Interrupt 3.
    SoftwareInterrupt,
    /// Interrupt 7.
    TimerInterrupt,
    /// Interrupt 11.
    ExternalInterrupt,
    /// Any other interrupt.
    UnhandledInterrupt { number: u64 },
    /// Exception 2.
    IllegalInstruction,
    /// Exception 8: environment call from user mode.
    UserEcall,
    /// Exception 9: environment call from supervisor mode.
    SupervisorEcall,
    /// Exception 11: environment call from machine mode.
    MachineEcall,
    /// Exception 12.
    InstructionPageFault,
    /// Exception 13.
    LoadPageFault,
    /// Exception 15.
    StorePageFault,
    /// Any other exception.
    UnhandledException { number: u64 },
}

/// How execution goes on after a trap.
#[derive(Clone, Copy, Debug, PartialEq, Eq, Structural)]
pub enum Policy {
    /// Report the trap and resume at the trapped instruction.
    Continue,
    /// Schedule the next timer interrupt and resume at the trapped instruction.
    Rearm,
    /// Report the trap and resume behind the trapped instruction.
    Skip,
    /// Report the trap and halt.
    Fatal,
}

impl Trap {
    /// The trap that `cause` reports.
    pub open spec fn of(cause: u64) -> Trap {
        let number = cause_number(cause);
        if is_async(cause) {
            if number == 3 {
                Trap::SoftwareInterrupt
            } else if number == 7 {
                Trap::TimerInterrupt
            } else if number == 11 {
                Trap::ExternalInterrupt
            } else {
                Trap::UnhandledInterrupt { number }
            }
        } else {
            if number == 2 {
                Trap::IllegalInstruction
            } else if number == 8 {
                Trap::UserEcall
            } else if number == 9 {
                Trap::SupervisorEcall
            } else if number == 11 {
                Trap::MachineEcall
            } else if number == 12 {
                Trap::InstructionPageFault
            } else if number == 13 {
                Trap::LoadPageFault
            } else if number == 15 {
                Trap::StorePageFault
            } else {
                Trap::UnhandledException { number }
            }
        }
    }

    /// How execution goes on after this trap.
    pub open spec fn policy(self) -> Policy {
        match self {
            Trap::SoftwareInterrupt | Trap::ExternalInterrupt => Policy::Continue,
            Trap::TimerInterrupt => Policy::Rearm,
            Trap::UserEcall
            | Trap::SupervisorEcall
            | Trap::InstructionPageFault
            | Trap::LoadPageFault
            | Trap::StorePageFault => Policy::Skip,
            Trap::IllegalInstruction
            | Trap::MachineEcall
            | Trap::UnhandledInterrupt { .. }
            | Trap::UnhandledException { .. } => Policy::Fatal,
        }
    }

    /// The words that open the diagnostic line of this trap. The timer
    /// interrupt is not reported and has none.
    pub open spec fn label(self) -> Seq<u8> {
        match self {
            Trap::SoftwareInterrupt => "Machine software interrupt".spec_bytes(),
            Trap::TimerInterrupt => "".spec_bytes(),
            Trap::ExternalInterrupt => "Machine external interrupt".spec_bytes(),
            Trap::UnhandledInterrupt { .. } => "Unhandled async trap".spec_bytes(),
            Trap::IllegalInstruction => "Illegal instruction".spec_bytes(),
            Trap::UserEcall => "E-call from User mode!".spec_bytes(),
            Trap::SupervisorEcall => "E-call from Supervisor mode!".spec_bytes(),
            Trap::MachineEcall => "E-call from Machine mode!".spec_bytes(),
            Trap::InstructionPageFault => "Instruction page fault".spec_bytes(),
            Trap::LoadPageFault => "Load page fault".spec_bytes(),
            Trap::StorePageFault => "Store page fault".spec_bytes(),
            Trap::UnhandledException { .. } => "Unhandled sync trap".spec_bytes(),
        }
    }

    /// What the diagnostic line of this trap says after the hart: nothing
    /// for the reported interrupts, the cause number for an unhandled
    /// trap, the trapped address for an environment call, and the trapped
    /// address and the trap value for an illegal instruction or a page fault.
    pub open spec fn detail(self, epc: u64, tval: u64) -> Seq<u8> {
        match self {
            Trap::SoftwareInterrupt | Trap::TimerInterrupt | Trap::ExternalInterrupt => Seq::empty(),
            Trap::UnhandledInterrupt { number } | Trap::UnhandledException { number } => {
                " -> ".spec_bytes() + decimal(number as nat)
            },
            Trap::UserEcall | Trap::SupervisorEcall | Trap::MachineEcall => {
                " -> 0x".spec_bytes() + hex(epc as nat, 8)
            },
            Trap::IllegalInstruction
            | Trap::InstructionPageFault
            | Trap::LoadPageFault
            | Trap::StorePageFault => {
                " -> 0x".spec_bytes() + hex(epc as nat, 8) + ": 0x".spec_bytes() + hex(
                    tval as nat,
                    8,
                )
            },
        }
    }

    /// The diagnostic line of this trap on hart `hart`: the label, the
    /// hart in decimal, the detail, and a line feed. The timer interrupt
    /// is not reported: its line is empty.
    pub open spec fn line(self, epc: u64, tval: u64, hart: u64) -> Seq<u8> {
        if self == Trap::TimerInterrupt {
            Seq::empty()
        } else {
            self.label() + " CPU#".spec_bytes() + decimal(hart as nat) + self.detail(epc, tval)
                + "\n".spec_bytes()
        }
    }

    /// Sorts `cause` into the trap it reports.
    pub fn classify(cause: u64) -> (trap: Trap)
        ensures
            trap == Trap::of(cause),
    {
        let is_async: bool = (cause >> 63) & 1 == 1;
        let number: u64 = cause & 0xfff;
        if is_async {
            match number {
                3 => Trap::SoftwareInterrupt,
                7 => Trap::TimerInterrupt,
                11 => Trap::ExternalInterrupt,
                _ => Trap::UnhandledInterrupt { number },
            }
        } else {
            match number {
                2 => Trap::IllegalInstruction,
                8 => Trap::UserEcall,
                9 => Trap::SupervisorEcall,
                11 => Trap::MachineEcall,
                12 => Trap::InstructionPageFault,
                13 => Trap::LoadPageFault,
                15 => Trap::StorePageFault,
                _ => Trap::UnhandledException { number },
            }
        }
    }

    /// How execution goes on after this trap.
    pub fn decide(self) -> (policy: Policy)
        ensures
            policy == self.policy(),
    {
        match self {
            Trap::SoftwareInterrupt | Trap::ExternalInterrupt => Policy::Continue,
            Trap::TimerInterrupt => Policy::Rearm,
            Trap::UserEcall
            | Trap::SupervisorEcall
            | Trap::InstructionPageFault
            | Trap::LoadPageFault
            | Trap::StorePageFault => Policy::Skip,
            Trap::IllegalInstruction
            | Trap::MachineEcall
            | Trap::UnhandledInterrupt { .. }
            | Trap::UnhandledException { .. } => Policy::Fatal,
        }
    }

    /// The words that open the diagnostic line of this trap.
    pub fn name(self) -> (name: &'static str)
        ensures
            name.spec_bytes() == self.label(),
    {
        match self {
            Trap::SoftwareInterrupt => "Machine software interrupt",
            Trap::TimerInterrupt => "",
            Trap::ExternalInterrupt => "Machine external interrupt",
            Trap::UnhandledInterrupt { .. } => "Unhandled async trap",
            Trap::IllegalInstruction => "Illegal instruction",
            Trap::UserEcall => "E-call from User mode!",
            Trap::SupervisorEcall => "E-call from Supervisor mode!",
            Trap::MachineEcall => "E-call from Machine mode!",
            Trap::InstructionPageFault => "Instruction page fault",
            Trap::LoadPageFault => "Load page fault",
            Trap::StorePageFault => "Store page fault",
            Trap::UnhandledException { .. } => "Unhandled sync trap",
        }
    }

    /// Writes the diagnostic line of this trap.
    pub fn describe(self, epc: u64, tval: u64, hart: u64) -> (text: Vec<u8>)
        ensures
            text@ == self.line(epc, tval, hart),
    {
        let mut text: Vec<u8> = Vec::new();
        if let Trap::TimerInterrupt = self {
            return text;
        }
        push_bytes(&mut text, self.name().as_bytes());
        push_bytes(&mut text, " CPU#".as_bytes());
        push_decimal(&mut text, hart);
        match self {
            Trap::SoftwareInterrupt | Trap::TimerInterrupt | Trap::ExternalInterrupt => {},
            Trap::UnhandledInterrupt { number } | Trap::UnhandledException { number } => {
                push_bytes(&mut text, " -> ".as_bytes());
                push_decimal(&mut text, number);
            },
            Trap::UserEcall | Trap::SupervisorEcall | Trap::MachineEcall => {
                push_bytes(&mut text, " -> 0x".as_bytes());
                push_hex(&mut text, epc, 8);
            },
            Trap::IllegalInstruction
            | Trap::InstructionPageFault
            | Trap::LoadPageFault
            | Trap::StorePageFault => {
                push_bytes(&mut text, " -> 0x".as_bytes());
                push_hex(&mut text, epc, 8);
                push_bytes(&mut text, ": 0x".as_bytes());
                push_hex(&mut text, tval, 8);
            },
        }
        push_bytes(&mut text, "\n".as_bytes());
        text
    }
}

/// What the platform does to finish a trap.
#[derive(Debug, PartialEq, Eq)]
pub enum TrapOutcome {
    /// Perform the stores of `log` in order, then resume at `resume_pc`.
    Resume { resume_pc: u64, log: Vec<Store> },
    /// Read the 64-bit counter at `counter`, perform the store that
    /// [`rearm`](crate::drivers::clint::rearm) gives for the value read,
    /// then resume at `resume_pc`.
    RearmTimer { resume_pc: u64, counter: u64 },
    /// Enter the halt path with `message`. The hart does not resume.
    Fatal { message: Vec<u8> },
}

/// A [`TrapOutcome`] as a mathematical value.
pub enum Outcome {
    /// The stores of `log` are performed, and the hart resumes at `resume_pc`.
    Resume { resume_pc: u64, log: Seq<Store> },
    /// The counter at `counter` is read, the timer is rearmed from the
    /// value read, and the hart resumes at `resume_pc`.
    RearmTimer { resume_pc: u64, counter: u64 },
    /// The halt path is entered with `message`.
    Fatal { message: Seq<u8> },
}

impl Outcome {
    /// The address at which the hart resumes, if it does.
    pub open spec fn resume_pc(self) -> Option<u64> {
        match self {
            Outcome::Resume { resume_pc, .. } => Some(resume_pc),
            Outcome::RearmTimer { resume_pc, .. } => Some(resume_pc),
            Outcome::Fatal { .. } => None,
        }
    }

    /// The stores that finish the trap, in order, on a platform whose
    /// counter holds `now` when it is read and whose failures are raised
    /// at `location`.
    pub open spec fn stores(self, now: u64, location: Option<Location>) -> Seq<Store> {
        match self {
            Outcome::Resume { log, .. } => log,
            Outcome::RearmTimer { .. } => seq![rearmed(now)],
            Outcome::Fatal { message } => halted(location, message),
        }
    }
}

impl View for TrapOutcome {
    type V = Outcome;

    open spec fn view(&self) -> Outcome {
        match *self {
            TrapOutcome::Resume { resume_pc, log } => Outcome::Resume { resume_pc, log: log@ },
            TrapOutcome::RearmTimer { resume_pc, counter } => Outcome::RearmTimer {
                resume_pc,
                counter,
            },
            TrapOutcome::Fatal { message } => Outcome::Fatal { message: message@ },
        }
    }
}

/// The cause numbers of the interrupts that are handled: software, timer
/// and external.
pub open spec fn handled_interrupt(number: u64) -> bool {
    number == 3 || number == 7 || number == 11
}

/// The cause numbers of the exceptions that are skipped: the environment
/// calls from user and supervisor mode, and the three page faults.
pub open spec fn skipped_exception(number: u64) -> bool {
    number == 8 || number == 9 || number == 12 || number == 13 || number == 15
}

/// The outcome of the trap that `cause` reports on hart `hart`, taken at
/// the instruction at `epc` with trap value `tval`.
pub open spec fn trap_outcome(epc: u64, tval: u64, cause: u64, hart: u64) -> Outcome {
    let trap = Trap::of(cause);
    match trap.policy() {
        Policy::Continue => Outcome::Resume {
            resume_pc: epc,
            log: transmit(trap.line(epc, tval, hart)),
        },
        Policy::Rearm => Outcome::RearmTimer { resume_pc: epc, counter: MTIME },
        Policy::Skip => Outcome::Resume {
            resume_pc: (epc + INSTRUCTION_WIDTH) as u64,
            log: transmit(trap.line(epc, tval, hart)),
        },
        Policy::Fatal => Outcome::Fatal { message: trap.line(epc, tval, hart) },
    }
}

/// Handles one trap of hart `hart`: the instruction at `epc` trapped with
/// cause `cause` and trap value `tval`. `_status` is not looked at, and
/// `frame` is left as it is.
///
/// A handled interrupt resumes at `epc`. The timer interrupt among them is
/// answered by rearming the timer and is not reported; the other two are
/// reported on the diagnostic channel. A skipped exception is reported and
/// resumes one instruction behind `epc`. Every other trap is fatal: the
/// outcome carries the message for the halt path, and no resume address.
#[allow(unused_variables)]
pub fn handle_trap(
    epc: u64,
    tval: u64,
    cause: u64,
    hart: u64,
    _status: u64,
    frame: &mut TrapFrame,
) -> (outcome: TrapOutcome)
    requires
        !is_async(cause) && skipped_exception(cause_number(cause)) ==> epc + INSTRUCTION_WIDTH
            <= u64::MAX,
    ensures
        *final(frame) == *old(frame),
        outcome@ == trap_outcome(epc, tval, cause, hart),
        is_async(cause) && handled_interrupt(cause_number(cause)) ==> outcome@.resume_pc() == Some(
            epc,
        ),
        is_async(cause) && cause_number(cause) == 7 ==> outcome@ == (Outcome::RearmTimer {
            resume_pc: epc,
            counter: MTIME,
        }),
        is_async(cause) && !handled_interrupt(cause_number(cause)) ==> outcome@ is Fatal,
        !is_async(cause) && skipped_exception(cause_number(cause)) ==> outcome@.resume_pc()
            == Some((epc + 4) as u64),
        !is_async(cause) && !skipped_exception(cause_number(cause)) ==> outcome@ is Fatal,
{
    let trap = Trap::classify(cause);
    match trap.decide() {
        Policy::Continue => TrapOutcome::Resume {
            resume_pc: epc,
            log: write_bytes(trap.describe(epc, tval, hart).as_slice()),
        },
        Policy::Rearm => TrapOutcome::RearmTimer { resume_pc: epc, counter: MTIME },
        Policy::Skip => TrapOutcome::Resume {
            resume_pc: epc + INSTRUCTION_WIDTH,
            log: write_bytes(trap.describe(epc, tval, hart).as_slice()),
        },
        Policy::Fatal => TrapOutcome::Fatal { message: trap.describe(epc, tval, hart) },
    }
}

/// The timer interrupt leaves the compare register one tick after what
/// the counter held when it was read. It stores nothing else there, and
/// no other trap stores to the compare register at all.
pub proof fn lemma_timer_interrupt_rearms(
    epc: u64,
    tval: u64,
    cause: u64,
    hart: u64,
    now: u64,
    location: Option<Location>,
)
    requires
        now + TICK <= u64::MAX,
    ensures
        received(trap_outcome(epc, tval, cause, hart).stores(now, location), MTIMECMP) == (if is_async(
            cause,
        ) && cause_number(cause) == 7 {
            seq![(now + TICK) as u64]
        } else {
            Seq::empty()
        }),
{
    let trap = Trap::of(cause);
    let line = trap.line(epc, tval, hart);
    match trap.policy() {
        Policy::Rearm => {
            lemma_rearm_sets_compare(now);
        },
        Policy::Continue | Policy::Skip => {
            lemma_transmit_delivers(line, MTIMECMP);
        },
        Policy::Fatal => {
            lemma_stores_of_halt_path(location, line, MTIMECMP);
        },
    }
}

/// A fatal trap gives the halt signal exactly once, and a trap after
/// which the hart resumes gives none.
pub proof fn lemma_halt_signal_iff_fatal(
    epc: u64,
    tval: u64,
    cause: u64,
    hart: u64,
    now: u64,
    location: Option<Location>,
)
    ensures
        received(trap_outcome(epc, tval, cause, hart).stores(now, location), HALT) == (if trap_outcome(
            epc,
            tval,
            cause,
            hart,
        ) is Fatal {
            seq![HALT_SIGNAL as u64]
        } else {
            Seq::empty()
        }),
{
    let trap = Trap::of(cause);
    let line = trap.line(epc, tval, hart);
    match trap.policy() {
        Policy::Rearm => {
            lemma_received_one(rearmed(now), HALT);
        },
        Policy::Continue | Policy::Skip => {
            lemma_transmit_delivers(line, HALT);
        },
        Policy::Fatal => {
            lemma_halt_signals_once(location, line);
        },
    }
}

/// The two fields of a cause in arithmetic: a cause reports an interrupt
/// exactly when it is at least 2^63, and its cause number is what is left
/// of it modulo 4096.
pub proof fn lemma_cause_fields(cause: u64)
    ensures
        is_async(cause) <==> cause >= 0x8000_0000_0000_0000,
        cause_number(cause) == cause % 4096,
        cause_number(cause) < 4096,
{
    assert(((cause >> 63) & 1 == 1) <==> cause >= 0x8000_0000_0000_0000) by (bit_vector);
    assert(cause & 0xfff == cause % 4096) by (bit_vector);
}

} // verus!
