//! How a transaction's gas is paid.

use vstd::prelude::*;
use crate::ids::ObjectId;

verus! {

/// The gas budget that is used where none is given, in the ledger's smallest
/// unit.
pub const DEFAULT_GAS_BUDGET: u64 = 1000000000;

/// The gas payment of a transaction: the coin object to pay from, and the
/// largest amount to spend. Without an object, the ledger client picks a coin
/// that holds at least the budget.
#[derive(Clone, Copy, Debug, PartialEq, Eq, Structural)]
pub struct GasInfo {
    pub object: Option<ObjectId>,
    pub budget: u64,
}

impl GasInfo {
    /// A gas payment is usable when its budget is not zero.
    pub open spec fn well_formed(&self) -> bool {
        self.budget > 0
    }

    /// The gas payment from `object` with `budget`; `None` exactly when the
    /// budget is zero.
    pub fn new(object: Option<ObjectId>, budget: u64) -> (gas: Option<GasInfo>)
        ensures
            gas == if budget > 0 {
                Some(GasInfo { object, budget })
            } else {
                None
            },
            gas matches Some(g) ==> g.well_formed(),
    {
        if budget > 0 {
            Some(GasInfo { object, budget })
        } else {
            None
        }
    }

    /// Whether the budget is not zero.
    pub fn is_well_formed(&self) -> (ok: bool)
        ensures
            ok == self.well_formed(),
    {
        self.budget > 0
    }
}

impl View for GasInfo {
    type V = GasInfo;

    open spec fn view(&self) -> GasInfo {
        *self
    }
}

impl DeepView for GasInfo {
    type V = GasInfo;

    open spec fn deep_view(&self) -> GasInfo {
        *self
    }
}

impl Default for GasInfo {
    /// No gas object, and the default budget.
    fn default() -> (gas: GasInfo)
        ensures
            gas == (GasInfo { object: None, budget: DEFAULT_GAS_BUDGET }),
            gas.well_formed(),
    {
        GasInfo { object: None, budget: DEFAULT_GAS_BUDGET }
    }
}

} // verus!
