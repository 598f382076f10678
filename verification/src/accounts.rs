//! Plain-value models of the accounts one thaw operation reads: the buyer's
//! token account and the full operation context handed in by the host.

use vstd::prelude::*;
use crate::eligibility::FreezePda;
use crate::eligibility::SaleLedger;

verus! {

/// The buyer's token account, as the token authority service holds it. This
/// core never writes it directly: it only asks the external services to.
#[derive(Clone, Copy)]
pub struct TokenAccount {
    /// The account's recorded owner.
    pub owner: [u8; 32],
    /// The mint the account holds tokens of.
    pub mint: [u8; 32],
    /// The standing delegate grant, if any.
    pub delegate: Option<[u8; 32]>,
    /// Whether the account is currently frozen.
    pub is_frozen: bool,
}

/// Everything one thaw operation is handed: the freeze authority record and
/// its address, the sale's address and ledger, the token account with the
/// addresses it is claimed to be bound to, the fee payer, and the addresses
/// the caller supplied for the two external services.
#[derive(Clone, Copy)]
pub struct ThawNFT {
    /// Contents of the freeze authority record.
    pub freeze_pda: FreezePda,
    /// Address of the freeze authority record.
    pub freeze_pda_key: [u8; 32],
    /// Address of the candy machine (the sale).
    pub candy_machine_key: [u8; 32],
    /// State of the candy machine's redemption ledger.
    pub ledger: SaleLedger,
    /// Contents of the buyer's token account.
    pub token_account: TokenAccount,
    /// Address of the buyer's token account.
    pub token_account_key: [u8; 32],
    /// The claimed owner of the token account.
    pub owner_key: [u8; 32],
    /// Address of the mint.
    pub mint_key: [u8; 32],
    /// Address of the mint's edition record, passed through to the thaw call.
    pub edition_key: [u8; 32],
    /// The transaction's fee payer.
    pub payer_key: [u8; 32],
    /// The address supplied for the token authority service.
    pub token_program_key: [u8; 32],
    /// The address supplied for the metadata authority service.
    pub token_metadata_program_key: [u8; 32],
}

} // verus!
