//! The thaw eligibility evaluator: a pure decision over the freeze authority
//! record and the sale's redemption ledger. It is the single authorization
//! gate for the whole release operation.

use vstd::prelude::*;

verus! {

/// The freeze authority record bound to one sale. Its address is derived from
/// the sale's address; it signs the thaw call by proof of that derivation.
#[derive(Clone, Copy)]
pub struct FreezePda {
    /// Address of the candy machine (the sale) this record is bound to.
    pub candy_machine: [u8; 32],
    /// Administrative override: when set, thawing is always allowed.
    pub allow_thaw: bool,
}

/// The sale's redemption ledger, as found in the candy machine's account.
/// Absent storage is a valid state of its own, not an error.
#[derive(Clone, Copy)]
pub enum SaleLedger {
    /// The candy machine account holds no data: the sale was never
    /// initialized (or was closed), so nothing can have been redeemed.
    Absent,
    /// The candy machine account holds the two redemption counters.
    Present { items_redeemed: u64, items_available: u64 },
}

/// When a thaw is allowed: the record's override flag is set, or the ledger
/// storage is absent, or the sale is fully redeemed.
pub open spec fn thaw_eligible(record: FreezePda, ledger: SaleLedger) -> bool {
    match ledger {
        SaleLedger::Absent => true,
        SaleLedger::Present { items_redeemed, items_available } => {
            record.allow_thaw || items_redeemed == items_available
        },
    }
}

/// The eligibility evaluator. Pure; no side effects.
pub fn can_thaw(record: &FreezePda, ledger: &SaleLedger) -> (r: bool)
    ensures
        r == thaw_eligible(*record, *ledger),
{
    if record.allow_thaw {
        true
    } else {
        match ledger {
            SaleLedger::Absent => true,
            SaleLedger::Present { items_redeemed, items_available } => {
                *items_redeemed == *items_available
            },
        }
    }
}

/// An allowing override decides alone: whatever the ledger holds, even
/// counters no consistent sale could produce, the record is eligible.
pub proof fn lemma_allow_thaw_overrides(record: FreezePda, ledger: SaleLedger)
    requires
        record.allow_thaw,
    ensures
        thaw_eligible(record, ledger),
{
}

/// Absent ledger storage decides alone: every record is eligible then.
pub proof fn lemma_absent_ledger_eligible(record: FreezePda)
    ensures
        thaw_eligible(record, SaleLedger::Absent),
{
}

/// A sold-out sale is always eligible.
pub proof fn lemma_sold_out_eligible(record: FreezePda, redeemed: u64, available: u64)
    requires
        redeemed == available,
    ensures
        thaw_eligible(
            record,
            (SaleLedger::Present { items_redeemed: redeemed, items_available: available }),
        ),
{
}

/// A sale still running blocks the thaw when the override is not set.
pub proof fn lemma_running_sale_not_eligible(record: FreezePda, redeemed: u64, available: u64)
    requires
        !record.allow_thaw,
        redeemed < available,
    ensures
        !thaw_eligible(
            record,
            (SaleLedger::Present { items_redeemed: redeemed, items_available: available }),
        ),
{
}

} // verus!
