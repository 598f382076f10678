use solana_program::pubkey::Pubkey;
use thaw_nft::accounts::{ThawNFT, TokenAccount};
use thaw_nft::eligibility::{can_thaw, FreezePda, SaleLedger};
use thaw_nft::keys::{cmp_pubkeys, FREEZE_SEED, TOKEN_METADATA_PROGRAM_ID, TOKEN_PROGRAM_ID};
use thaw_nft::thaw::{handle_thaw_nft, settle_thaw_nft, ThawError};

fn key(n: u8) -> [u8; 32] {
    [n; 32]
}

/// A context whose structural bindings all hold: the freeze record's address
/// is really derived from the candy machine under `program_id`, the record is
/// bound to that candy machine, mint and owner match, and both service
/// addresses are the canonical ones.
fn valid_ctx(program_id: &[u8; 32]) -> ThawNFT {
    let candy_machine_key = key(7);
    let (freeze_pda, _bump) = Pubkey::find_program_address(
        &[&FREEZE_SEED, &candy_machine_key],
        &Pubkey::new_from_array(*program_id),
    );
    let owner = key(11);
    let mint = key(12);
    ThawNFT {
        freeze_pda: FreezePda { candy_machine: candy_machine_key, allow_thaw: false },
        freeze_pda_key: freeze_pda.to_bytes(),
        candy_machine_key,
        ledger: SaleLedger::Absent,
        token_account: TokenAccount {
            owner,
            mint,
            delegate: Some(freeze_pda.to_bytes()),
            is_frozen: true,
        },
        token_account_key: key(13),
        owner_key: owner,
        mint_key: mint,
        edition_key: key(14),
        payer_key: owner,
        token_program_key: TOKEN_PROGRAM_ID,
        token_metadata_program_key: TOKEN_METADATA_PROGRAM_ID,
    }
}

#[test]
fn allow_thaw_overrides_any_ledger() {
    let record = FreezePda { candy_machine: key(1), allow_thaw: true };
    assert!(can_thaw(&record, &SaleLedger::Absent));
    assert!(can_thaw(&record, &SaleLedger::Present { items_redeemed: 0, items_available: 10 }));
    assert!(can_thaw(&record, &SaleLedger::Present { items_redeemed: 10, items_available: 10 }));
    // Even a ledger no consistent sale could produce does not block it.
    assert!(can_thaw(&record, &SaleLedger::Present { items_redeemed: 11, items_available: 10 }));
}

#[test]
fn absent_ledger_is_eligible() {
    let record = FreezePda { candy_machine: key(1), allow_thaw: false };
    assert!(can_thaw(&record, &SaleLedger::Absent));
}

#[test]
fn sold_out_ledger_is_eligible() {
    let record = FreezePda { candy_machine: key(1), allow_thaw: false };
    assert!(can_thaw(&record, &SaleLedger::Present { items_redeemed: 10, items_available: 10 }));
    assert!(can_thaw(&record, &SaleLedger::Present { items_redeemed: 0, items_available: 0 }));
    assert!(can_thaw(
        &record,
        &SaleLedger::Present { items_redeemed: u64::MAX, items_available: u64::MAX }
    ));
}

#[test]
fn running_sale_is_not_eligible() {
    let record = FreezePda { candy_machine: key(1), allow_thaw: false };
    assert!(!can_thaw(&record, &SaleLedger::Present { items_redeemed: 5, items_available: 10 }));
    assert!(!can_thaw(&record, &SaleLedger::Present { items_redeemed: 0, items_available: 1 }));
}

#[test]
fn canonical_ids_match_the_real_programs() {
    assert_eq!(TOKEN_PROGRAM_ID, spl_token::ID.to_bytes());
    assert_eq!(TOKEN_METADATA_PROGRAM_ID, mpl_token_metadata::ID.to_bytes());
    assert_eq!(FREEZE_SEED, *b"freeze");
}

#[test]
fn cmp_pubkeys_compares_bytes() {
    assert!(cmp_pubkeys(&key(9), &key(9)));
    let mut other = key(9);
    other[31] = 8;
    assert!(!cmp_pubkeys(&key(9), &other));
}

#[test]
fn scenario_absent_ledger_frozen_owner() {
    // Ledger absent -> eligible; frozen account -> thaw call issued; payer is
    // the owner -> revocation issued; both succeed.
    let program_id = key(42);
    let ctx = valid_ctx(&program_id);
    let plan = handle_thaw_nft(&ctx, &program_id).expect("operation must pass");
    let thaw = plan.thaw.as_ref().expect("frozen account needs a thaw call");
    assert_eq!(thaw.delegate, ctx.freeze_pda_key);
    assert_eq!(thaw.token_account, ctx.token_account_key);
    assert_eq!(thaw.edition, ctx.edition_key);
    assert_eq!(thaw.mint, ctx.mint_key);
    let revoke = plan.revoke.as_ref().expect("owner as payer triggers revocation");
    assert_eq!(revoke.token_account, ctx.token_account_key);
    assert_eq!(revoke.owner, ctx.payer_key);
    assert_eq!(plan.seeds.candy_machine, ctx.candy_machine_key);
    let settled = settle_thaw_nft(&ctx.token_account, &plan, true, true).expect("both succeeded");
    assert!(!settled.is_frozen);
    assert_eq!(settled.delegate, None);
    assert_eq!(settled.owner, ctx.token_account.owner);
    assert_eq!(settled.mint, ctx.token_account.mint);
}

#[test]
fn scenario_running_sale_denied() {
    // Ledger present with 5 of 10 redeemed and no override -> the operation
    // fails with an eligibility denial before any call is issued.
    let program_id = key(42);
    let mut ctx = valid_ctx(&program_id);
    ctx.ledger = SaleLedger::Present { items_redeemed: 5, items_available: 10 };
    assert!(matches!(handle_thaw_nft(&ctx, &program_id), Err(ThawError::EligibilityDenied)));
}

#[test]
fn scenario_sold_out_thawed_non_owner() {
    // Sold out -> eligible; account already thawed -> no thaw call; payer is
    // not the owner -> no revocation; success with no external mutation.
    let program_id = key(42);
    let mut ctx = valid_ctx(&program_id);
    ctx.ledger = SaleLedger::Present { items_redeemed: 10, items_available: 10 };
    ctx.token_account.is_frozen = false;
    ctx.payer_key = key(99);
    let plan = handle_thaw_nft(&ctx, &program_id).expect("operation must pass");
    assert!(plan.thaw.is_none());
    assert!(plan.revoke.is_none());
    let settled = settle_thaw_nft(&ctx.token_account, &plan, false, false).expect("nothing issued");
    assert_eq!(settled.is_frozen, ctx.token_account.is_frozen);
    assert_eq!(settled.delegate, ctx.token_account.delegate);
    assert_eq!(settled.owner, ctx.token_account.owner);
    assert_eq!(settled.mint, ctx.token_account.mint);
}

#[test]
fn thaw_step_is_idempotent() {
    // Run the whole operation, apply it, run it again: the second pass issues
    // no thaw call and is no error.
    let program_id = key(42);
    let ctx = valid_ctx(&program_id);
    let plan = handle_thaw_nft(&ctx, &program_id).expect("first pass");
    let settled = settle_thaw_nft(&ctx.token_account, &plan, true, true).expect("first settle");
    let mut rerun = ctx;
    rerun.token_account = settled;
    let second = handle_thaw_nft(&rerun, &program_id).expect("second pass is no error");
    assert!(second.thaw.is_none());
}

#[test]
fn revocation_is_owner_gated() {
    let program_id = key(42);
    let mut ctx = valid_ctx(&program_id);
    ctx.payer_key = key(99);
    let plan = handle_thaw_nft(&ctx, &program_id).expect("mismatch is not fatal");
    assert!(plan.revoke.is_none());
    let settled = settle_thaw_nft(&ctx.token_account, &plan, true, true).expect("thaw alone");
    assert_eq!(settled.delegate, ctx.token_account.delegate);
}

#[test]
fn failed_thaw_discards_revocation() {
    let program_id = key(42);
    let ctx = valid_ctx(&program_id);
    let plan = handle_thaw_nft(&ctx, &program_id).expect("operation must pass");
    assert!(plan.thaw.is_some());
    assert!(plan.revoke.is_some());
    let settled = settle_thaw_nft(&ctx.token_account, &plan, false, true);
    assert!(matches!(settled, Err(ThawError::ExternalServiceFailure)));
    // The caller keeps the pre-state: still frozen, delegate still granted.
    assert!(ctx.token_account.is_frozen);
    assert!(ctx.token_account.delegate.is_some());
}

#[test]
fn wrong_freeze_record_address_is_refused() {
    let program_id = key(42);
    let mut ctx = valid_ctx(&program_id);
    ctx.freeze_pda_key = key(77);
    assert!(matches!(handle_thaw_nft(&ctx, &program_id), Err(ThawError::BindingMismatch)));
}

#[test]
fn record_bound_to_another_sale_is_refused() {
    let program_id = key(42);
    let mut ctx = valid_ctx(&program_id);
    ctx.freeze_pda.candy_machine = key(8);
    assert!(matches!(handle_thaw_nft(&ctx, &program_id), Err(ThawError::BindingMismatch)));
}

#[test]
fn mismatched_mint_or_owner_is_refused() {
    let program_id = key(42);
    let mut ctx = valid_ctx(&program_id);
    ctx.mint_key = key(88);
    assert!(matches!(handle_thaw_nft(&ctx, &program_id), Err(ThawError::BindingMismatch)));
    let mut ctx = valid_ctx(&program_id);
    ctx.owner_key = key(88);
    assert!(matches!(handle_thaw_nft(&ctx, &program_id), Err(ThawError::BindingMismatch)));
}

#[test]
fn lookalike_service_addresses_are_refused() {
    let program_id = key(42);
    let mut ctx = valid_ctx(&program_id);
    ctx.token_program_key = key(66);
    assert!(matches!(handle_thaw_nft(&ctx, &program_id), Err(ThawError::BindingMismatch)));
    let mut ctx = valid_ctx(&program_id);
    ctx.token_metadata_program_key = key(66);
    assert!(matches!(handle_thaw_nft(&ctx, &program_id), Err(ThawError::BindingMismatch)));
}

#[test]
fn binding_check_precedes_eligibility() {
    // Both a binding and the eligibility would fail: the binding wins.
    let program_id = key(42);
    let mut ctx = valid_ctx(&program_id);
    ctx.freeze_pda_key = key(77);
    ctx.ledger = SaleLedger::Present { items_redeemed: 5, items_available: 10 };
    assert!(matches!(handle_thaw_nft(&ctx, &program_id), Err(ThawError::BindingMismatch)));
}

#[test]
fn built_thaw_instruction_carries_the_keys() {
    let program_id = key(42);
    let ctx = valid_ctx(&program_id);
    let plan = handle_thaw_nft(&ctx, &program_id).expect("operation must pass");
    let ix = &plan.thaw.as_ref().unwrap().instruction;
    assert_eq!(ix.program_id, mpl_token_metadata::ID);
    assert_eq!(ix.accounts.len(), 5);
    assert_eq!(ix.accounts[0].pubkey.to_bytes(), ctx.freeze_pda_key);
    assert!(ix.accounts[0].is_signer);
    assert_eq!(ix.accounts[1].pubkey.to_bytes(), ctx.token_account_key);
    assert!(ix.accounts[1].is_writable);
    assert_eq!(ix.accounts[2].pubkey.to_bytes(), ctx.edition_key);
    assert_eq!(ix.accounts[3].pubkey.to_bytes(), ctx.mint_key);
    assert_eq!(ix.accounts[4].pubkey, spl_token::ID);
}

#[test]
fn built_revoke_instruction_carries_the_keys() {
    let program_id = key(42);
    let ctx = valid_ctx(&program_id);
    let plan = handle_thaw_nft(&ctx, &program_id).expect("operation must pass");
    let ix = &plan.revoke.as_ref().unwrap().instruction;
    let expected = spl_token::instruction::revoke(
        &spl_token::ID,
        &Pubkey::new_from_array(ctx.token_account_key),
        &Pubkey::new_from_array(ctx.payer_key),
        &[],
    )
    .unwrap();
    assert_eq!(*ix, expected);
    assert_eq!(ix.program_id, spl_token::ID);
    assert_eq!(ix.accounts[0].pubkey.to_bytes(), ctx.token_account_key);
    assert_eq!(ix.accounts[1].pubkey.to_bytes(), ctx.payer_key);
    assert!(ix.accounts[1].is_signer);
}

#[test]
fn returned_bump_completes_the_derivation() {
    let program_id = key(42);
    let ctx = valid_ctx(&program_id);
    let plan = handle_thaw_nft(&ctx, &program_id).expect("operation must pass");
    let derived = Pubkey::create_program_address(
        &[&FREEZE_SEED, &ctx.candy_machine_key, &[plan.seeds.bump]],
        &Pubkey::new_from_array(program_id),
    )
    .expect("bump must be valid");
    assert_eq!(derived.to_bytes(), ctx.freeze_pda_key);
}
