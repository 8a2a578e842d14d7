//! The diagnostic channel: a polled, byte-wide UART.
//!
//! Transmit and receive share one base address. A store to the base
//! register sends a byte. Bit 0 of the status register, five bytes above
//! the base, says whether a received byte waits in the base register.

use crate::mmio::{received, Store};
use vstd::prelude::*;
use vstd::string::StringSliceAdditionalSpecFns;

verus! {

/// Address of the transmit register.
pub const UART_TX: u64 = 0x1000_0000;

/// Address of the receive register: the same as the transmit register.
pub const UART_RX: u64 = UART_TX;

/// Distance from the base address to the status register.
pub const UART_STATUS_OFFSET: u64 = 5;

/// Bit of the status register that is set while a received byte waits.
pub const UART_DATA_READY: u8 = 1;

/// The stores that send `bytes`: one byte store to the transmit register
/// for each byte, in the order of `bytes`, each carrying its byte unchanged.
pub open spec fn transmit(bytes: Seq<u8>) -> Seq<Store> {
    Seq::new(bytes.len(), |i: int| Store::Byte { addr: UART_TX, value: bytes[i] })
}

/// The store that sends one byte.
pub fn write(byte: u8) -> (store: Store)
    ensures
        store == (Store::Byte { addr: UART_TX, value: byte }),
{
    Store::Byte { addr: UART_TX, value: byte }
}

/// The stores that send `bytes`, in order.
pub fn write_bytes(bytes: &[u8]) -> (stores: Vec<Store>)
    ensures
        stores@ == transmit(bytes@),
        stores@.len() == bytes@.len(),
        forall|i: int|
            0 <= i < bytes@.len() ==> #[trigger] stores@[i] == (Store::Byte {
                addr: UART_TX,
                value: bytes@[i],
            }),
{
    let mut stores: Vec<Store> = Vec::new();
    let mut i: usize = 0;
    while i < bytes.len()
        invariant
            i <= bytes.len(),
            stores@ == transmit(bytes@.subrange(0, i as int)),
        decreases bytes.len() - i,
    {
        stores.push(write(bytes[i]));
        i += 1;
    }
    assert(bytes@.subrange(0, i as int) == bytes@);
    stores
}

/// The stores that send `text`, byte by byte in its UTF-8 encoding.
pub fn print(text: &str) -> (stores: Vec<Store>)
    ensures
        stores@ == transmit(text.spec_bytes()),
        stores@.len() == text.spec_bytes().len(),
        forall|i: int|
            0 <= i < text.spec_bytes().len() ==> #[trigger] stores@[i] == (Store::Byte {
                addr: UART_TX,
                value: text.spec_bytes()[i],
            }),
{
    write_bytes(text.as_bytes())
}

/// Sending delivers every byte to the transmit register, once each, in
/// order and unchanged, and stores to no other register.
pub proof fn lemma_transmit_delivers(bytes: Seq<u8>, addr: u64)
    ensures
        received(transmit(bytes), addr) == (if addr == UART_TX {
            Seq::new(bytes.len(), |i: int| bytes[i] as u64)
        } else {
            Seq::empty()
        }),
    decreases bytes.len(),
{
    if bytes.len() > 0 {
        let stores = transmit(bytes);
        assert(stores.drop_last() =~= transmit(bytes.drop_last()));
        assert(stores.last() == (Store::Byte { addr: UART_TX, value: bytes.last() }));
        lemma_transmit_delivers(bytes.drop_last(), addr);
        if addr == UART_TX {
            assert(received(stores, addr) =~= Seq::new(bytes.len(), |i: int| bytes[i] as u64));
        }
    } else {
        assert(received(transmit(bytes), addr) =~= Seq::<u64>::empty());
        assert(Seq::new(bytes.len(), |i: int| bytes[i] as u64) =~= Seq::<u64>::empty());
    }
}

/// The register read a receive is waiting for.
#[derive(Clone, Copy, Debug, PartialEq, Eq, Structural)]
pub enum Pending {
    /// The status register.
    Status,
    /// The receive register.
    Data,
}

/// One step of a non-blocking receive.
#[derive(Clone, Copy, Debug, PartialEq, Eq, Structural)]
pub enum Receive {
    /// Read the byte register at `addr` and hand the value to
    /// [`get_resume`] together with `pending`.
    Load { addr: u64, pending: Pending },
    /// The receive is over: `byte` is the byte received, if there was one.
    Done { byte: Option<u8> },
}

/// The first step of a receive: read the status register.
pub open spec fn first_step() -> Receive {
    Receive::Load { addr: (UART_RX + UART_STATUS_OFFSET) as u64, pending: Pending::Status }
}

/// The step that follows the read of `value` from the register that
/// `pending` names. With the ready bit clear in the status there is no
/// data, and the receive register is left alone; with the bit set the
/// receive register is read, and what it held is the byte received.
pub open spec fn next_step(pending: Pending, value: u8) -> Receive {
    match pending {
        Pending::Status => if value & UART_DATA_READY == 0 {
            Receive::Done { byte: None }
        } else {
            Receive::Load { addr: UART_RX, pending: Pending::Data }
        },
        Pending::Data => Receive::Done { byte: Some(value) },
    }
}

/// The result of a receive on a UART whose byte register at address `a`
/// holds `regs(a)`: the steps are followed, each read answered from
/// `regs`, for at most `loads` reads.
pub open spec fn receive(step: Receive, regs: spec_fn(u64) -> u8, loads: nat) -> Option<u8>
    decreases loads,
{
    match step {
        Receive::Done { byte } => byte,
        Receive::Load { addr, pending } => if loads == 0 {
            None
        } else {
            receive(next_step(pending, regs(addr)), regs, (loads - 1) as nat)
        },
    }
}

/// Begins a non-blocking receive.
pub fn get() -> (step: Receive)
    ensures
        step == first_step(),
{
    Receive::Load { addr: UART_RX + UART_STATUS_OFFSET, pending: Pending::Status }
}

/// Continues a receive with the `value` read from the register that
/// `pending` names.
pub fn get_resume(pending: Pending, value: u8) -> (step: Receive)
    ensures
        step == next_step(pending, value),
{
    match pending {
        Pending::Status => if value & UART_DATA_READY == 0 {
            Receive::Done { byte: None }
        } else {
            Receive::Load { addr: UART_RX, pending: Pending::Data }
        },
        Pending::Data => Receive::Done { byte: Some(value) },
    }
}

/// A receive ends after at most two reads. It yields no data when the
/// ready bit of the status register is clear, and otherwise exactly the
/// byte that the base register holds.
pub proof fn lemma_receive_yields_waiting_byte(regs: spec_fn(u64) -> u8)
    ensures
        receive(first_step(), regs, 2) == (if regs((UART_RX + UART_STATUS_OFFSET) as u64)
            & UART_DATA_READY == 0 {
            None
        } else {
            Some(regs(UART_RX))
        }),
{
    reveal_with_fuel(receive, 3);
}

} // verus!
