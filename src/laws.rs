//! Facts about the ledger that hold across its operations.
use vstd::prelude::*;

use crate::ledger::{available_of, footprint_cost, StorageLedger};

verus! {

/// While every commitment covers its footprint, what a registered account
/// may withdraw is exactly its commitment less the cost of its footprint,
/// and is never negative.
pub proof fn available_is_exact_and_non_negative(
    ledger: &StorageLedger,
    price_per_byte: u128,
    id: Seq<char>,
)
    requires
        ledger.covers(price_per_byte),
        ledger@.contains_key(id),
    ensures
        available_of(ledger@[id], price_per_byte) == ledger@[id].total - footprint_cost(
            ledger@[id],
            price_per_byte,
        ),
        available_of(ledger@[id], price_per_byte) >= 0,
{
    assert(ledger.covers(price_per_byte));
}

} // verus!
