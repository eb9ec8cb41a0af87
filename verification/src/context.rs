//! What an operation is handed by its surroundings: the program it runs
//! for, the time, and the storage locations that the request names.
use crate::address::Address;
use crate::errors::Failure;
use vstd::prelude::*;

verus! {

/// One location in storage: its address, and the record found there, if any.
#[derive(Clone, Debug, PartialEq, Eq)]
pub struct Slot<T> {
    pub address: Address,
    pub record: Option<T>,
}

/// A [`Slot`] as a mathematical value.
pub struct SlotView<V> {
    pub address: Address,
    pub record: Option<V>,
}

impl<T: View> View for Slot<T> {
    type V = SlotView<T::V>;

    open spec fn view(&self) -> SlotView<T::V> {
        SlotView {
            address: self.address,
            record: match self.record {
                Some(r) => Some(r@),
                None => None,
            },
        }
    }
}

impl<T> Slot<T> {
    /// A location that holds nothing yet.
    pub fn vacant(address: Address) -> (s: Slot<T>)
        ensures
            s.address == address,
            s.record is None,
    {
        Slot { address, record: None }
    }

    /// A location that holds `record`.
    pub fn holding(address: Address, record: T) -> (s: Slot<T>)
        ensures
            s.address == address,
            s.record == Some(record),
    {
        Slot { address, record: Some(record) }
    }
}

/// The surroundings of one operation.
#[derive(Clone, Debug, PartialEq, Eq)]
pub struct Context<T> {
    /// Identity of the program whose records these are.
    pub program_id: Address,
    /// The trusted clock's reading for this operation.
    pub now: i64,
    /// The identities and storage locations that the request names.
    pub accounts: T,
}

/// A [`Context`] as a mathematical value.
pub struct ContextView<V> {
    pub program_id: Address,
    pub now: i64,
    pub accounts: V,
}

impl<T: View> View for Context<T> {
    type V = ContextView<T::V>;

    open spec fn view(&self) -> ContextView<T::V> {
        ContextView { program_id: self.program_id, now: self.now, accounts: self.accounts@ }
    }
}

/// How an operation ends: its result, and the surroundings it leaves.
pub struct Step<V> {
    pub result: Result<(), Failure>,
    pub after: V,
}

/// Whether a derivation arrives at `address`.
pub open spec fn leads_to(derived: Option<(Seq<u8>, u8)>, address: Address) -> bool {
    match derived {
        Some((bytes, _)) => bytes == address@,
        None => false,
    }
}

/// Whether a derivation arrives at `address` with the bump `bump`.
pub open spec fn leads_to_with(derived: Option<(Seq<u8>, u8)>, address: Address, bump: u8) -> bool {
    derived == Some((address@, bump))
}

/// The bump that a derivation carries; arbitrary where it found nothing.
pub open spec fn bump_of(derived: Option<(Seq<u8>, u8)>) -> u8 {
    match derived {
        Some((_, bump)) => bump,
        None => 0,
    }
}

} // verus!
