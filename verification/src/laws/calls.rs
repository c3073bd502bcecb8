//! The law that every call is allowed.
use crate::accounts::{Account, AccountInfo, Context, Mint, TokenAccount};
use crate::contexts::{
    AdminOnly, CloseConfig, CloseTreasuryAta, CloseVaultAta, FinalizeArena, Initialize,
    InitializeBumps, MintEndingNft, MintEndingNftBumps, SeedVault, StartArena, StartArenaBumps,
    WithdrawTreasury, WithdrawVault,
};
use crate::grindie::{
    burn_from_player, close_config, close_treasury_ata, close_vault_ata, finalize_arena, initialize,
    list_settlement_ops, mint_ending_nft, seed_vault, set_admin, set_content_root, set_mint,
    set_outcome_authority, set_paused, start_session_arena, update_config, withdraw_treasury,
    withdraw_vault, xfer_from_player,
};
use crate::money::{enter, mul_bps, settle, Settlement};
use crate::ops::Authority;
use crate::params::{apply_params, validate_params};
use crate::pda::{associated_token_address, is_mpl_core, Pda};
use crate::pubkey::Pubkey;
use crate::state::{Config, ConfigParams, Session};
use vstd::prelude::*;

verus! {

/// The arithmetic takes any numbers, configuration, session and parameters.
pub proof fn any_numbers_are_taken(
    c: Config,
    into: &mut Config,
    p: ConfigParams,
    s: Session,
    amount: u64,
    stack: u64,
    held: u64,
    bps: u16,
    ending: u8,
)
    ensures
        call_requires(mul_bps, (amount, bps)),
        call_requires(enter, (&c, held, amount)),
        call_requires(settle, (&c, &s, stack, ending, held)),
        call_requires(validate_params, (&p,)),
        call_requires(apply_params, (into, &p)),
{
}

/// Addresses can be asked for of any seeds, bump and program.
pub proof fn any_address_can_be_asked_for(
    pda: Pda,
    a: Authority,
    bump: u8,
    key: Pubkey,
    mint: Pubkey,
    program: Pubkey,
)
    ensures
        call_requires(Pda::seed_bytes, (&pda,)),
        call_requires(Pda::signer_seed_bytes, (&pda, bump)),
        call_requires(Pda::find, (&pda, &program)),
        call_requires(Pda::create, (&pda, bump, &program)),
        call_requires(associated_token_address, (&key, &mint, &program)),
        call_requires(is_mpl_core, (&key,)),
        call_requires(Authority::key, (&a,)),
        call_requires(Authority::signer_seeds, (&a,)),
{
}

/// Any accounts can be handed to the check of any instruction.
pub proof fn any_accounts_can_be_checked(
    program_id: Pubkey,
    session_id: u64,
    first: Initialize,
    change: AdminOnly,
    seed: SeedVault,
    fees: WithdrawTreasury,
    prizes: WithdrawVault,
    close_fees: CloseTreasuryAta,
    close_prizes: CloseVaultAta,
    close: CloseConfig,
    start: StartArena,
    end: FinalizeArena,
    mint: MintEndingNft,
)
    ensures
        call_requires(Initialize::try_accounts, (first, program_id)),
        call_requires(AdminOnly::try_accounts, (change, program_id)),
        call_requires(SeedVault::try_accounts, (seed, program_id)),
        call_requires(WithdrawTreasury::try_accounts, (fees, program_id)),
        call_requires(WithdrawVault::try_accounts, (prizes, program_id)),
        call_requires(CloseTreasuryAta::try_accounts, (close_fees, program_id)),
        call_requires(CloseVaultAta::try_accounts, (close_prizes, program_id)),
        call_requires(CloseConfig::try_accounts, (close, program_id)),
        call_requires(StartArena::try_accounts, (start, program_id, session_id)),
        call_requires(FinalizeArena::try_accounts, (end, program_id)),
        call_requires(MintEndingNft::try_accounts, (mint, program_id, session_id)),
{
}

/// The configuration can be written and changed with any arguments.
pub proof fn any_change_can_be_asked_for(
    first: &mut Context<Initialize, InitializeBumps>,
    ctx: &mut Context<AdminOnly, ()>,
    p: ConfigParams,
    key: Pubkey,
    root: [u8; 32],
    paused: bool,
)
    ensures
        call_requires(initialize, (first, p)),
        call_requires(update_config, (ctx, p)),
        call_requires(set_outcome_authority, (ctx, key)),
        call_requires(set_admin, (ctx, key)),
        call_requires(set_mint, (ctx, key)),
        call_requires(set_content_root, (ctx, root)),
        call_requires(set_paused, (ctx, paused)),
{
}

/// Tokens can be seeded, withdrawn, moved and burned in any amount, and the accounts
/// closed.
pub proof fn any_amount_can_be_asked_for(
    seed: Context<SeedVault, ()>,
    fees: Context<WithdrawTreasury, ()>,
    prizes: Context<WithdrawVault, ()>,
    close_fees: Context<CloseTreasuryAta, ()>,
    close_prizes: Context<CloseVaultAta, ()>,
    close: Context<CloseConfig, ()>,
    tp: AccountInfo,
    mint: Account<Mint>,
    from: Account<TokenAccount>,
    to: Account<TokenAccount>,
    player: AccountInfo,
    amount: u64,
)
    ensures
        call_requires(seed_vault, (&seed, amount)),
        call_requires(withdraw_treasury, (&fees, amount)),
        call_requires(withdraw_vault, (&prizes, amount)),
        call_requires(close_treasury_ata, (&close_fees,)),
        call_requires(close_vault_ata, (&close_prizes,)),
        call_requires(close_config, (&close,)),
        call_requires(xfer_from_player, (&tp, &mint, &from, &to, &player, amount)),
        call_requires(burn_from_player, (&tp, &mint, &from, &player, amount)),
{
}

/// Sessions can be started and settled, and endings minted, with any arguments.
pub proof fn any_run_can_be_asked_for(
    start: &mut Context<StartArena, StartArenaBumps>,
    end: &mut Context<FinalizeArena, ()>,
    mint: &mut Context<MintEndingNft, MintEndingNftBumps>,
    a: FinalizeArena,
    x: Settlement,
    session_id: u64,
    buyin: u64,
    slot: u64,
    final_stack: u64,
    ending: u8,
    choices_hash: [u8; 32],
    name: String,
    uri: String,
)
    ensures
        call_requires(start_session_arena, (start, session_id, buyin, slot)),
        call_requires(list_settlement_ops, (&a, &x)),
        call_requires(finalize_arena, (end, final_stack, ending, choices_hash)),
        call_requires(mint_ending_nft, (mint, session_id, ending, name, uri)),
{
}

} // verus!
