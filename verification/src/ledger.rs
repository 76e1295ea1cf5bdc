//! The asset ledger as the rules see it.
//!
//! The ledger is the host's. What is assumed of it here is what a transfer
//! means: the amount leaves one holder and reaches the other.

use vstd::prelude::*;
use crate::effects::TransferView;

verus! {

/// What `holder` has of the asset once the ledger has carried out
/// `transfer`, where `before` gives each holder's balance until then.
pub open spec fn balance_after(
    before: spec_fn(Seq<u8>) -> int,
    transfer: Option<TransferView>,
    holder: Seq<u8>,
) -> int {
    match transfer {
        None => before(holder),
        Some(t) => before(holder) - (if holder == t.from {
            t.amount
        } else {
            0
        }) + (if holder == t.to {
            t.amount
        } else {
            0
        }),
    }
}

} // verus!
