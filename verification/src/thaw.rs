//! The release operation itself: validate the structural bindings of the
//! accounts, gate on thaw eligibility, and decide which external calls the
//! enclosing transaction issues — the thaw when the account is frozen, the
//! delegate revocation when the fee payer is the account's owner.

use vstd::prelude::*;
use crate::accounts::ThawNFT;
use crate::accounts::TokenAccount;
use crate::cpi::build_revoke_instruction;
use crate::cpi::build_thaw_instruction;
use crate::cpi::derive_freeze_address;
use crate::cpi::freeze_pda_derivation;
use crate::cpi::revoke_instruction_of;
use crate::cpi::spl_token_program_id;
use crate::cpi::thaw_instruction_of;
use crate::cpi::token_metadata_program_id;
use crate::eligibility::can_thaw;
use crate::eligibility::thaw_eligible;
use crate::keys::cmp_pubkeys;
use crate::keys::FREEZE_SEED;
use crate::keys::TOKEN_METADATA_PROGRAM_ID;
use crate::keys::TOKEN_PROGRAM_ID;

verus! {

/// Why a release operation failed. Every failure is fatal to the whole
/// operation; the enclosing transaction then persists nothing.
#[derive(Clone, Copy, Debug, PartialEq, Eq, Structural)]
pub enum ThawError {
    /// The eligibility evaluator said no: the sale is still running and the
    /// override flag is not set.
    EligibilityDenied,
    /// A structural binding does not hold: wrong derived address, the record
    /// bound to another sale, mismatched mint or owner, or a service address
    /// that is not the canonical one.
    BindingMismatch,
    /// An external call failed.
    ExternalServiceFailure,
}

/// The seeds the freeze authority record signs the thaw call with: the
/// constant tag, the sale's address, and the found bump seed.
#[derive(Clone, Copy)]
pub struct FreezeSeeds {
    /// Address of the candy machine the record is derived from.
    pub candy_machine: [u8; 32],
    /// The bump seed that completes the derivation.
    pub bump: u8,
}

/// The thaw call to issue: the built instruction and the keys it was built
/// from, with the freeze authority record signing by derivation.
pub struct ThawCall {
    /// The metadata program's thaw instruction, ready to invoke.
    pub instruction: solana_program::instruction::Instruction,
    /// The freeze authority record, acting as the delegate.
    pub delegate: [u8; 32],
    /// The token account to thaw.
    pub token_account: [u8; 32],
    /// The mint's edition record.
    pub edition: [u8; 32],
    /// The mint.
    pub mint: [u8; 32],
}

/// The revocation call to issue: the built instruction and the keys it was
/// built from, with the fee payer (the owner) signing.
pub struct RevokeCall {
    /// The token program's revoke instruction, ready to invoke.
    pub instruction: solana_program::instruction::Instruction,
    /// The token account whose delegate grant is cleared.
    pub token_account: [u8; 32],
    /// The owner authorizing the revocation.
    pub owner: [u8; 32],
}

/// Everything the enclosing transaction must do once eligibility has been
/// affirmatively established: at most one thaw and at most one revocation.
pub struct ThawNftPlan {
    /// The thaw call, present exactly when the account is frozen.
    pub thaw: Option<ThawCall>,
    /// The revocation call, present exactly when the fee payer is the owner.
    pub revoke: Option<RevokeCall>,
    /// The seeds the freeze authority record signs the thaw call with.
    pub seeds: FreezeSeeds,
}

/// The structural bindings that must hold before anything runs: the freeze
/// authority record's address is the one derived from the sale, the record is
/// bound to that sale, the token account's recorded mint and owner match the
/// supplied accounts, and the two service addresses are the canonical ones.
pub open spec fn bindings_ok(ctx: ThawNFT, program_id: Seq<u8>) -> bool {
    &&& match freeze_pda_derivation(FREEZE_SEED@, ctx.candy_machine_key@, program_id) {
        Some(found) => found.0 == ctx.freeze_pda_key@,
        None => false,
    }
    &&& ctx.freeze_pda.candy_machine@ == ctx.candy_machine_key@
    &&& ctx.token_account.mint@ == ctx.mint_key@
    &&& ctx.token_account.owner@ == ctx.owner_key@
    &&& ctx.token_program_key@ == TOKEN_PROGRAM_ID@
    &&& ctx.token_metadata_program_key@ == TOKEN_METADATA_PROGRAM_ID@
}

/// What a correct plan for the context says: a thaw exactly when the account
/// is frozen, a revocation exactly when the fee payer is the owner, each
/// built from the context's keys, and the signing seeds of the derivation.
pub open spec fn plan_ok(ctx: ThawNFT, program_id: Seq<u8>, plan: ThawNftPlan) -> bool {
    &&& (plan.thaw is Some <==> ctx.token_account.is_frozen)
    &&& match plan.thaw {
        Some(call) => {
            &&& call.delegate@ == ctx.freeze_pda_key@
            &&& call.token_account@ == ctx.token_account_key@
            &&& call.edition@ == ctx.edition_key@
            &&& call.mint@ == ctx.mint_key@
            &&& call.instruction == thaw_instruction_of(
                ctx.freeze_pda_key@,
                ctx.token_account_key@,
                ctx.edition_key@,
                ctx.mint_key@,
                TOKEN_PROGRAM_ID@,
            )
        },
        None => true,
    }
    &&& (plan.revoke is Some <==> ctx.payer_key@ == ctx.owner_key@)
    &&& match plan.revoke {
        Some(call) => {
            &&& call.token_account@ == ctx.token_account_key@
            &&& call.owner@ == ctx.payer_key@
            &&& call.instruction == revoke_instruction_of(
                TOKEN_PROGRAM_ID@,
                ctx.token_account_key@,
                ctx.payer_key@,
            )
        },
        None => true,
    }
    &&& plan.seeds.candy_machine@ == ctx.candy_machine_key@
    &&& freeze_pda_derivation(FREEZE_SEED@, ctx.candy_machine_key@, program_id)
        == Some((ctx.freeze_pda_key@, plan.seeds.bump))
}

/// Fail-fast validation of the structural bindings; returns the bump seed of
/// the freeze authority record's derivation.
pub fn validate_bindings(ctx: &ThawNFT, program_id: &[u8; 32]) -> (r: Result<u8, ThawError>)
    ensures
        r is Ok <==> bindings_ok(*ctx, program_id@),
        r is Ok ==> freeze_pda_derivation(FREEZE_SEED@, ctx.candy_machine_key@, program_id@)
            == Some((ctx.freeze_pda_key@, r->Ok_0)),
        r is Err ==> r->Err_0 == ThawError::BindingMismatch,
{
    let derived = derive_freeze_address(&FREEZE_SEED, &ctx.candy_machine_key, program_id);
    match derived {
        Some((derived_key, bump)) => {
            if !cmp_pubkeys(&derived_key, &ctx.freeze_pda_key) {
                return Err(ThawError::BindingMismatch);
            }
            if !cmp_pubkeys(&ctx.freeze_pda.candy_machine, &ctx.candy_machine_key) {
                return Err(ThawError::BindingMismatch);
            }
            if !cmp_pubkeys(&ctx.token_account.mint, &ctx.mint_key) {
                return Err(ThawError::BindingMismatch);
            }
            if !cmp_pubkeys(&ctx.token_account.owner, &ctx.owner_key) {
                return Err(ThawError::BindingMismatch);
            }
            let token_program = spl_token_program_id();
            if !cmp_pubkeys(&ctx.token_program_key, &token_program) {
                return Err(ThawError::BindingMismatch);
            }
            let metadata_program = token_metadata_program_id();
            if !cmp_pubkeys(&ctx.token_metadata_program_key, &metadata_program) {
                return Err(ThawError::BindingMismatch);
            }
            Ok(bump)
        },
        None => Err(ThawError::BindingMismatch),
    }
}

/// The whole decision of one release operation: validate the bindings, gate
/// on eligibility, and build the calls the transaction is to issue. No side
/// effect happens here; the host invokes the returned instructions.
pub fn handle_thaw_nft(ctx: &ThawNFT, program_id: &[u8; 32]) -> (r: Result<ThawNftPlan, ThawError>)
    ensures
        r is Ok <==> bindings_ok(*ctx, program_id@) && thaw_eligible(ctx.freeze_pda, ctx.ledger),
        !bindings_ok(*ctx, program_id@) ==> r == Err::<ThawNftPlan, ThawError>(
            ThawError::BindingMismatch,
        ),
        bindings_ok(*ctx, program_id@) && !thaw_eligible(ctx.freeze_pda, ctx.ledger) ==> r
            == Err::<ThawNftPlan, ThawError>(ThawError::EligibilityDenied),
        r is Ok ==> plan_ok(*ctx, program_id@, r->Ok_0),
{
    let bump = match validate_bindings(ctx, program_id) {
        Ok(bump) => bump,
        Err(e) => {
            return Err(e);
        },
    };
    if !can_thaw(&ctx.freeze_pda, &ctx.ledger) {
        return Err(ThawError::EligibilityDenied);
    }
    let thaw = if ctx.token_account.is_frozen {
        let token_program = spl_token_program_id();
        Some(
            ThawCall {
                instruction: build_thaw_instruction(
                    &ctx.freeze_pda_key,
                    &ctx.token_account_key,
                    &ctx.edition_key,
                    &ctx.mint_key,
                    &token_program,
                ),
                delegate: ctx.freeze_pda_key,
                token_account: ctx.token_account_key,
                edition: ctx.edition_key,
                mint: ctx.mint_key,
            },
        )
    } else {
        None
    };
    let revoke = if cmp_pubkeys(&ctx.payer_key, &ctx.owner_key) {
        let token_program = spl_token_program_id();
        match build_revoke_instruction(&token_program, &ctx.token_account_key, &ctx.payer_key) {
            Ok(instruction) => Some(
                RevokeCall {
                    instruction,
                    token_account: ctx.token_account_key,
                    owner: ctx.payer_key,
                },
            ),
            Err(_) => {
                // Cannot be reached: the canonical token program address was
                // supplied, so the builder accepts it. Kept as the fatal
                // fall-back an external failure maps to.
                return Err(ThawError::ExternalServiceFailure);
            },
        }
    } else {
        None
    };
    Ok(ThawNftPlan { thaw, revoke, seeds: FreezeSeeds { candy_machine: ctx.candy_machine_key, bump } })
}

/// The thaw step's effect on the token account: frozen becomes thawed, an
/// already-thawed account is left alone.
pub open spec fn after_thaw_step(acct: TokenAccount) -> TokenAccount {
    TokenAccount { is_frozen: false, ..acct }
}

/// The token account once every call of the plan has been applied: thawed if
/// a thaw was issued, its delegate grant cleared if a revocation was issued,
/// untouched otherwise.
pub open spec fn account_after(acct: TokenAccount, plan: ThawNftPlan) -> TokenAccount {
    let thawed = if plan.thaw is Some {
        after_thaw_step(acct)
    } else {
        acct
    };
    if plan.revoke is Some {
        TokenAccount { delegate: None, ..thawed }
    } else {
        thawed
    }
}

/// The all-or-nothing rule of the enclosing transaction: if any issued call
/// failed, nothing persists and the operation reports failure; otherwise the
/// account ends as `account_after` says.
pub open spec fn settle_spec(
    pre: TokenAccount,
    plan: ThawNftPlan,
    thaw_succeeded: bool,
    revoke_succeeded: bool,
) -> Result<TokenAccount, ThawError> {
    if (plan.thaw is Some && !thaw_succeeded) || (plan.revoke is Some && !revoke_succeeded) {
        Err(ThawError::ExternalServiceFailure)
    } else {
        Ok(account_after(pre, plan))
    }
}

/// Settle one operation against the outcomes of its issued calls, as the
/// enclosing transaction does: all side effects persist together, or none
/// does. The host reports whether each issued call succeeded; on failure the
/// caller keeps `pre`, the state from before the operation.
pub fn settle_thaw_nft(
    pre: &TokenAccount,
    plan: &ThawNftPlan,
    thaw_succeeded: bool,
    revoke_succeeded: bool,
) -> (r: Result<TokenAccount, ThawError>)
    ensures
        r == settle_spec(*pre, *plan, thaw_succeeded, revoke_succeeded),
        r is Ok <==> (plan.thaw is Some ==> thaw_succeeded) && (plan.revoke is Some
            ==> revoke_succeeded),
        r is Ok ==> r->Ok_0 == account_after(*pre, *plan),
{
    if plan.thaw.is_some() && !thaw_succeeded {
        return Err(ThawError::ExternalServiceFailure);
    }
    if plan.revoke.is_some() && !revoke_succeeded {
        return Err(ThawError::ExternalServiceFailure);
    }
    let mut acct = *pre;
    if plan.thaw.is_some() {
        acct.is_frozen = false;
    }
    if plan.revoke.is_some() {
        acct.delegate = None;
    }
    Ok(acct)
}

/// Thawing is idempotent: the thaw step leaves no account frozen, repeating
/// it changes nothing, and on an already-thawed account it is a no-op.
pub proof fn lemma_thaw_step_idempotent(acct: TokenAccount)
    ensures
        !after_thaw_step(acct).is_frozen,
        after_thaw_step(after_thaw_step(acct)) == after_thaw_step(acct),
        !acct.is_frozen ==> after_thaw_step(acct) == acct,
{
}

/// Running the operation again on an already-thawed account issues no second
/// thaw call and leaves the frozen state as it was; with the eligibility and
/// binding conditions unchanged it is no error either, since `handle_thaw_nft`
/// accepts or refuses without looking at the frozen state.
pub proof fn lemma_thawed_account_not_rethawed(ctx: ThawNFT, program_id: Seq<u8>, plan: ThawNftPlan)
    requires
        plan_ok(ctx, program_id, plan),
        !ctx.token_account.is_frozen,
    ensures
        plan.thaw is None,
        account_after(ctx.token_account, plan).is_frozen == ctx.token_account.is_frozen,
{
}

/// Revocation is owner-gated: a call is issued if and only if the fee payer
/// is the claimed owner, and a mismatched caller leaves the delegate grant
/// untouched. The mismatch is not fatal: the plan stands without the call.
pub proof fn lemma_revocation_owner_gated(ctx: ThawNFT, program_id: Seq<u8>, plan: ThawNftPlan)
    requires
        plan_ok(ctx, program_id, plan),
    ensures
        plan.revoke is Some <==> ctx.payer_key@ == ctx.owner_key@,
        ctx.payer_key@ != ctx.owner_key@ ==> account_after(ctx.token_account, plan).delegate
            == ctx.token_account.delegate,
{
}

/// Atomicity: when the issued thaw call fails, settling reports failure, so
/// no state persists — in particular the delegate is not revoked, however the
/// revocation call fared and whoever the caller was.
pub proof fn lemma_failed_thaw_discards_revocation(
    pre: TokenAccount,
    plan: ThawNftPlan,
    revoke_succeeded: bool,
)
    requires
        plan.thaw is Some,
    ensures
        settle_spec(pre, plan, false, revoke_succeeded) is Err,
{
}

} // verus!
