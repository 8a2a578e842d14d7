//! The machine timer: a free-running counter and the compare register
//! that raises the timer interrupt when the counter reaches it.

use crate::mmio::{lemma_received_one, received, Store};
use vstd::prelude::*;

verus! {

/// Address of the 64-bit timer compare register.
pub const MTIMECMP: u64 = 0x0200_4000;

/// Address of the 64-bit time counter.
pub const MTIME: u64 = 0x0200_bff8;

/// Counter ticks from one timer interrupt to the next.
pub const TICK: u64 = 10_000_000;

/// The store that schedules the next timer interrupt one tick after `now`.
pub open spec fn rearmed(now: u64) -> Store {
    Store::Double { addr: MTIMECMP, value: (now + TICK) as u64 }
}

/// The store that schedules the next timer interrupt one tick after `now`,
/// the value just read from the counter.
pub fn rearm(now: u64) -> (store: Store)
    requires
        now + TICK <= u64::MAX,
    ensures
        store == rearmed(now),
        store == (Store::Double { addr: MTIMECMP, value: (now + TICK) as u64 }),
{
    Store::Double { addr: MTIMECMP, value: now + TICK }
}

/// Rearming stores to the compare register once, and what it stores is
/// the counter value plus one tick.
pub proof fn lemma_rearm_sets_compare(now: u64)
    requires
        now + TICK <= u64::MAX,
    ensures
        received(seq![rearmed(now)], MTIMECMP) == seq![(now + TICK) as u64],
{
    lemma_received_one(rearmed(now), MTIMECMP);
}

} // verus!
