//! The halt path: the last thing a hart does after a fatal failure.

use crate::drivers::virt_uart::{lemma_transmit_delivers, transmit, write_bytes, UART_TX};
use crate::mmio::{lemma_received_concat, lemma_received_one, received, Store};
use crate::render::{decimal, push_bytes, push_decimal};
use vstd::prelude::*;
use vstd::string::StringSliceAdditionalSpecFns;

verus! {

/// Address of the register that an outside observer watches for the end
/// of the run.
pub const HALT: u64 = 0x10_0000;

/// The value whose store to [`HALT`] signals the end of the run.
pub const HALT_SIGNAL: u32 = 0x5555;

/// Where in the source a failure was raised.
#[derive(Clone, Copy, Debug)]
pub struct Location<'a> {
    /// The source file.
    pub file: &'a str,
    /// The line in the file, counted from 1.
    pub line: u32,
    /// The column in the line, counted from 1.
    pub column: u32,
}

/// The store that signals the end of the run.
pub open spec fn signal() -> Store {
    Store::Word { addr: HALT, value: HALT_SIGNAL }
}

/// The diagnostic record of a failure: one line with the place and the
/// message when the place is known, and nothing when it is not.
pub open spec fn record(location: Option<Location>, message: Seq<u8>) -> Seq<u8> {
    match location {
        Some(place) => "[PANIC] [".spec_bytes() + place.file.spec_bytes() + " ".spec_bytes()
            + decimal(place.line as nat) + ":".spec_bytes() + decimal(place.column as nat)
            + "]: ".spec_bytes() + message + "\n".spec_bytes(),
        None => Seq::empty(),
    }
}

/// The stores of the halt path: the diagnostic record on the diagnostic
/// channel, then the halt signal.
pub open spec fn halted(location: Option<Location>, message: Seq<u8>) -> Seq<Store> {
    transmit(record(location, message)).push(signal())
}

/// The stores of the halt path: the diagnostic record goes out on the
/// diagnostic channel, then the halt signal is given. The signal is the
/// last store and the only one that is not a byte sent on the channel.
/// The caller performs the stores and never resumes.
pub fn panic(location: Option<Location>, message: &[u8]) -> (stores: Vec<Store>)
    ensures
        stores@ == halted(location, message@),
        forall|i: int|
            0 <= i < stores@.len() ==> (#[trigger] stores@[i] == signal() <==> i == stores@.len()
                - 1),
{
    let mut text: Vec<u8> = Vec::new();
    if let Some(place) = location {
        push_bytes(&mut text, "[PANIC] [".as_bytes());
        push_bytes(&mut text, place.file.as_bytes());
        push_bytes(&mut text, " ".as_bytes());
        push_decimal(&mut text, place.line as u64);
        push_bytes(&mut text, ":".as_bytes());
        push_decimal(&mut text, place.column as u64);
        push_bytes(&mut text, "]: ".as_bytes());
        push_bytes(&mut text, message);
        push_bytes(&mut text, "\n".as_bytes());
    }
    let mut stores = write_bytes(text.as_slice());
    stores.push(Store::Word { addr: HALT, value: HALT_SIGNAL });
    stores
}

/// On the halt path the halt register receives the signal exactly once,
/// and the diagnostic channel receives the record.
pub proof fn lemma_halt_signals_once(location: Option<Location>, message: Seq<u8>)
    ensures
        received(halted(location, message), HALT) == seq![HALT_SIGNAL as u64],
        received(halted(location, message), UART_TX) == Seq::new(
            record(location, message).len(),
            |i: int| record(location, message)[i] as u64,
        ),
{
    let text = record(location, message);
    assert(halted(location, message) =~= transmit(text) + seq![signal()]);
    lemma_received_concat(transmit(text), seq![signal()], HALT);
    lemma_received_concat(transmit(text), seq![signal()], UART_TX);
    lemma_transmit_delivers(text, HALT);
    lemma_transmit_delivers(text, UART_TX);
    lemma_received_one(signal(), HALT);
    lemma_received_one(signal(), UART_TX);
    assert(received(halted(location, message), HALT) =~= seq![HALT_SIGNAL as u64]);
    assert(received(halted(location, message), UART_TX) =~= Seq::new(
        text.len(),
        |i: int| text[i] as u64,
    ));
}

/// The halt path stores to the diagnostic channel and to the halt
/// register, and to no other register.
pub proof fn lemma_stores_of_halt_path(location: Option<Location>, message: Seq<u8>, addr: u64)
    requires
        addr != HALT,
        addr != UART_TX,
    ensures
        received(halted(location, message), addr) == Seq::<u64>::empty(),
{
    let text = record(location, message);
    assert(halted(location, message) =~= transmit(text) + seq![signal()]);
    lemma_received_concat(transmit(text), seq![signal()], addr);
    lemma_transmit_delivers(text, addr);
    lemma_received_one(signal(), addr);
}

} // verus!
