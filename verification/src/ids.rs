//! Identifiers of ledger objects and accounts.

use vstd::prelude::*;

verus! {

/// The 256-bit identifier of an object on the ledger, held as two big-endian
/// halves: `hi` is the first sixteen bytes, `lo` the last sixteen.
#[derive(Clone, Copy, Debug, PartialEq, Eq, Structural, Hash)]
pub struct ObjectId {
    pub hi: u128,
    pub lo: u128,
}

/// The 256-bit address of an account on the ledger, in the same layout as
/// [`ObjectId`].
#[derive(Clone, Copy, Debug, PartialEq, Eq, Structural, Hash)]
pub struct SuiAddress {
    pub hi: u128,
    pub lo: u128,
}

impl ObjectId {
    /// The identifier made of the two given halves.
    pub fn new(hi: u128, lo: u128) -> (id: ObjectId)
        ensures
            id == (ObjectId { hi, lo }),
    {
        ObjectId { hi, lo }
    }
}

impl SuiAddress {
    /// The address made of the two given halves.
    pub fn new(hi: u128, lo: u128) -> (address: SuiAddress)
        ensures
            address == (SuiAddress { hi, lo }),
    {
        SuiAddress { hi, lo }
    }
}

impl View for ObjectId {
    type V = ObjectId;

    open spec fn view(&self) -> ObjectId {
        *self
    }
}

impl DeepView for ObjectId {
    type V = ObjectId;

    open spec fn deep_view(&self) -> ObjectId {
        *self
    }
}

impl View for SuiAddress {
    type V = SuiAddress;

    open spec fn view(&self) -> SuiAddress {
        *self
    }
}

impl DeepView for SuiAddress {
    type V = SuiAddress;

    open spec fn deep_view(&self) -> SuiAddress {
        *self
    }
}

} // verus!
