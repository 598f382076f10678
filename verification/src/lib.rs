//! Release logic for a delegated freeze authority over a buyer's token
//! account: decide whether the account may be thawed, issue the thaw through
//! the metadata program when the account is frozen, and revoke the standing
//! delegate when the fee payer is the account's owner.

pub mod keys;
pub mod eligibility;
pub mod accounts;
pub mod cpi;
pub mod thaw;
