//! Memory-mapped register accesses as plain values.

use vstd::prelude::*;

verus! {

/// One store to a memory-mapped register: the address, and a value whose
/// type is the width of the access.
#[allow(inconsistent_fields)]
#[derive(Clone, Copy, Debug, PartialEq, Eq, Structural)]
pub enum Store {
    /// An 8-bit store.
    Byte { addr: u64, value: u8 },
    /// A 32-bit store.
    Word { addr: u64, value: u32 },
    /// A 64-bit store.
    Double { addr: u64, value: u64 },
}

impl Store {
    /// The address the store goes to.
    pub open spec fn spec_addr(&self) -> u64 {
        match *self {
            Store::Byte { addr, .. } => addr,
            Store::Word { addr, .. } => addr,
            Store::Double { addr, .. } => addr,
        }
    }

    /// The value stored, as a number.
    pub open spec fn spec_value(&self) -> u64 {
        match *self {
            Store::Byte { value, .. } => value as u64,
            Store::Word { value, .. } => value as u64,
            Store::Double { value, .. } => value,
        }
    }

    /// The address the store goes to.
    #[verifier::when_used_as_spec(spec_addr)]
    pub fn addr(&self) -> (addr: u64)
        ensures
            addr == self.spec_addr(),
    {
        match *self {
            Store::Byte { addr, .. } => addr,
            Store::Word { addr, .. } => addr,
            Store::Double { addr, .. } => addr,
        }
    }

    /// The value stored, as a number.
    #[verifier::when_used_as_spec(spec_value)]
    pub fn value(&self) -> (value: u64)
        ensures
            value == self.spec_value(),
    {
        match *self {
            Store::Byte { value, .. } => value as u64,
            Store::Word { value, .. } => value as u64,
            Store::Double { value, .. } => value,
        }
    }
}

/// The values that the register at `addr` receives, first to last, when
/// `stores` are performed in order.
pub open spec fn received(stores: Seq<Store>, addr: u64) -> Seq<u64>
    decreases stores.len(),
{
    if stores.len() == 0 {
        Seq::empty()
    } else if stores.last().addr() == addr {
        received(stores.drop_last(), addr).push(stores.last().value())
    } else {
        received(stores.drop_last(), addr)
    }
}

/// A register receives from one store after another what it receives from
/// the first and then what it receives from the second.
pub proof fn lemma_received_concat(first: Seq<Store>, second: Seq<Store>, addr: u64)
    ensures
        received(first + second, addr) == received(first, addr) + received(second, addr),
    decreases second.len(),
{
    if second.len() == 0 {
        assert(first + second =~= first);
        assert(received(first, addr) + received(second, addr) =~= received(first, addr));
    } else {
        assert((first + second).drop_last() =~= first + second.drop_last());
        assert((first + second).last() == second.last());
        lemma_received_concat(first, second.drop_last(), addr);
        assert(received(first + second, addr) =~= received(first, addr) + received(second, addr));
    }
}

/// What a register receives from a single store: its value at the address
/// of the store, and nothing elsewhere.
pub proof fn lemma_received_one(store: Store, addr: u64)
    ensures
        received(seq![store], addr) == (if store.addr() == addr {
            seq![store.value()]
        } else {
            Seq::empty()
        }),
{
    let stores = seq![store];
    assert(stores.drop_last() =~= Seq::<Store>::empty());
    assert(stores.last() == store);
    assert(received(stores.drop_last(), addr) =~= Seq::<u64>::empty());
    assert(Seq::<u64>::empty().push(store.value()) =~= seq![store.value()]);
}

} // verus!
