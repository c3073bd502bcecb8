//! Laws of what each instruction does, in terms of the accounts and arguments that it
//! is given.
//!
//! Each law takes the result of one call, and says which accounts it writes and how,
//! and which instructions with which amounts go to which program.
use crate::accounts::{Account, AccountInfo, Context, Mint, TokenAccount};
use crate::contexts::{
    AdminOnly, CloseConfig, CloseTreasuryAta, CloseVaultAta, FinalizeArena, Initialize,
    InitializeBumps, MintEndingNft, MintEndingNftBumps, SeedVault, StartArena, StartArenaBumps,
    WithdrawTreasury, WithdrawVault,
};
use crate::error::GrindieError;
use crate::grindie::{
    burn_from_player, close_config, close_treasury_ata, close_vault_ata, finalize_arena, initialize,
    list_settlement_ops, mint_ending_nft, seed_vault, set_admin, set_content_root, set_mint,
    set_outcome_authority, set_paused, start_session_arena, update_config, withdraw_treasury,
    withdraw_vault, xfer_from_player,
};
use crate::money::Settlement;
use crate::ops::{AccountClosure, ArenaOutcome, Authority, MintOutcome, TokenOp};
use crate::pda::Pda;
use crate::pubkey::Pubkey;
use crate::state::ConfigParams;
use vstd::prelude::*;

verus! {

/// The instruction alone where the condition holds, and nothing otherwise.
pub open spec fn when(holds: bool, op: TokenOp) -> Seq<TokenOp> {
    if holds {
        seq![op]
    } else {
        seq![]
    }
}

/// The first configuration holds the keys of its accounts, the parameters, the bumps,
/// and a content root of zeroes, and is not paused. Wrong parameters are refused, and
/// nothing is written.
pub proof fn the_first_config_is_written(
    ctx: &mut Context<Initialize, InitializeBumps>,
    p: ConfigParams,
    r: Result<(), GrindieError>,
)
    requires
        call_ensures(initialize, (ctx, p), r),
    ensures
        ({
            let was = old(ctx).accounts.config.data;
            let new = final(ctx).accounts.config.data;
            let splits = p.fee_burn_bps + p.fee_treasury_bps == 10_000 && p.win_share_bps
                + p.win_burn_bps == 10_000 && p.loss_vault_bps + p.loss_burn_bps == 10_000
                && p.jackpot_share_bps <= 10_000;
            let ranged = p.buyin_min <= p.buyin_max;
            &&& !splits ==> r == Err::<(), GrindieError>(GrindieError::BpsSumInvalid)
            &&& splits && !ranged ==> r == Err::<(), GrindieError>(GrindieError::BuyinOutOfRange)
            &&& !(splits && ranged) ==> *final(ctx) == *old(ctx)
            &&& splits && ranged ==> {
                &&& r is Ok
                &&& new.admin == old(ctx).accounts.admin.key
                &&& new.mint == old(ctx).accounts.mint.info.key
                &&& new.outcome_authority == old(ctx).accounts.outcome_authority.key
                &&& forall|i: int| 0 <= i < 32 ==> new.content_root@[i] == 0
                &&& new.content_root@.len() == 32
                &&& new.holder_threshold == p.holder_threshold
                &&& new.buyin_min == p.buyin_min
                &&& new.buyin_max == p.buyin_max
                &&& new.session_fee == p.session_fee
                &&& new.nft_mint_fee == p.nft_mint_fee
                &&& new.rekt_forever_burn == p.rekt_forever_burn
                &&& new.fee_burn_bps == p.fee_burn_bps
                &&& new.fee_treasury_bps == p.fee_treasury_bps
                &&& new.win_share_bps == p.win_share_bps
                &&& new.win_burn_bps == p.win_burn_bps
                &&& new.loss_vault_bps == p.loss_vault_bps
                &&& new.loss_burn_bps == p.loss_burn_bps
                &&& new.jackpot_share_bps == p.jackpot_share_bps
                &&& new.win_cap_mult == p.win_cap_mult
                &&& new.paused == false
                &&& new.bump == old(ctx).bumps.config
                &&& new.vault_bump == old(ctx).bumps.vault
                &&& new.treasury_bump == old(ctx).bumps.treasury
            }
        }),
        final(ctx).program_id == old(ctx).program_id,
        final(ctx).bumps == old(ctx).bumps,
        final(ctx).accounts == (Initialize {
            config: Account {
                info: old(ctx).accounts.config.info,
                data: final(ctx).accounts.config.data,
            },
            ..old(ctx).accounts
        }),
{
}

/// An update replaces the parameters and leaves the rest of the configuration. Wrong
/// parameters are refused, and nothing is written.
pub proof fn an_update_replaces_the_parameters(
    ctx: &mut Context<AdminOnly, ()>,
    p: ConfigParams,
    r: Result<(), GrindieError>,
)
    requires
        call_ensures(update_config, (ctx, p), r),
    ensures
        ({
            let was = old(ctx).accounts.config.data;
            let new = final(ctx).accounts.config.data;
            let splits = p.fee_burn_bps + p.fee_treasury_bps == 10_000 && p.win_share_bps
                + p.win_burn_bps == 10_000 && p.loss_vault_bps + p.loss_burn_bps == 10_000
                && p.jackpot_share_bps <= 10_000;
            let ranged = p.buyin_min <= p.buyin_max;
            &&& !splits ==> r == Err::<(), GrindieError>(GrindieError::BpsSumInvalid)
            &&& splits && !ranged ==> r == Err::<(), GrindieError>(GrindieError::BuyinOutOfRange)
            &&& !(splits && ranged) ==> *final(ctx) == *old(ctx)
            &&& splits && ranged ==> {
                &&& r is Ok
                &&& new.admin == was.admin
                &&& new.mint == was.mint
                &&& new.outcome_authority == was.outcome_authority
                &&& new.content_root == was.content_root
                &&& new.holder_threshold == p.holder_threshold
                &&& new.buyin_min == p.buyin_min
                &&& new.buyin_max == p.buyin_max
                &&& new.session_fee == p.session_fee
                &&& new.nft_mint_fee == p.nft_mint_fee
                &&& new.rekt_forever_burn == p.rekt_forever_burn
                &&& new.fee_burn_bps == p.fee_burn_bps
                &&& new.fee_treasury_bps == p.fee_treasury_bps
                &&& new.win_share_bps == p.win_share_bps
                &&& new.win_burn_bps == p.win_burn_bps
                &&& new.loss_vault_bps == p.loss_vault_bps
                &&& new.loss_burn_bps == p.loss_burn_bps
                &&& new.jackpot_share_bps == p.jackpot_share_bps
                &&& new.win_cap_mult == p.win_cap_mult
                &&& new.paused == was.paused
                &&& new.bump == was.bump
                &&& new.vault_bump == was.vault_bump
                &&& new.treasury_bump == was.treasury_bump
            }
        }),
        final(ctx).program_id == old(ctx).program_id,
        final(ctx).bumps == old(ctx).bumps,
        final(ctx).accounts == (AdminOnly {
            config: Account {
                info: old(ctx).accounts.config.info,
                data: final(ctx).accounts.config.data,
            },
            ..old(ctx).accounts
        }),
{
}

/// The given key becomes the backend signer, and nothing else changes.
pub proof fn the_backend_signer_is_replaced(
    ctx: &mut Context<AdminOnly, ()>,
    new_authority: Pubkey,
    r: Result<(), GrindieError>,
)
    requires
        call_ensures(set_outcome_authority, (ctx, new_authority), r),
    ensures
        ({
            let was = old(ctx).accounts.config.data;
            let new = final(ctx).accounts.config.data;
            &&& r is Ok
            &&& new.admin == was.admin
            &&& new.mint == was.mint
            &&& new.outcome_authority == new_authority
            &&& new.content_root == was.content_root
            &&& new.holder_threshold == was.holder_threshold
            &&& new.buyin_min == was.buyin_min
            &&& new.buyin_max == was.buyin_max
            &&& new.session_fee == was.session_fee
            &&& new.nft_mint_fee == was.nft_mint_fee
            &&& new.rekt_forever_burn == was.rekt_forever_burn
            &&& new.fee_burn_bps == was.fee_burn_bps
            &&& new.fee_treasury_bps == was.fee_treasury_bps
            &&& new.win_share_bps == was.win_share_bps
            &&& new.win_burn_bps == was.win_burn_bps
            &&& new.loss_vault_bps == was.loss_vault_bps
            &&& new.loss_burn_bps == was.loss_burn_bps
            &&& new.jackpot_share_bps == was.jackpot_share_bps
            &&& new.win_cap_mult == was.win_cap_mult
            &&& new.paused == was.paused
            &&& new.bump == was.bump
            &&& new.vault_bump == was.vault_bump
            &&& new.treasury_bump == was.treasury_bump
        }),
        final(ctx).program_id == old(ctx).program_id,
        final(ctx).bumps == old(ctx).bumps,
        final(ctx).accounts == (AdminOnly {
            config: Account {
                info: old(ctx).accounts.config.info,
                data: final(ctx).accounts.config.data,
            },
            ..old(ctx).accounts
        }),
{
}

/// The given key becomes the admin, and nothing else changes.
pub proof fn the_admin_is_replaced(
    ctx: &mut Context<AdminOnly, ()>,
    new_admin: Pubkey,
    r: Result<(), GrindieError>,
)
    requires
        call_ensures(set_admin, (ctx, new_admin), r),
    ensures
        ({
            let was = old(ctx).accounts.config.data;
            let new = final(ctx).accounts.config.data;
            &&& r is Ok
            &&& new.admin == new_admin
            &&& new.mint == was.mint
            &&& new.outcome_authority == was.outcome_authority
            &&& new.content_root == was.content_root
            &&& new.holder_threshold == was.holder_threshold
            &&& new.buyin_min == was.buyin_min
            &&& new.buyin_max == was.buyin_max
            &&& new.session_fee == was.session_fee
            &&& new.nft_mint_fee == was.nft_mint_fee
            &&& new.rekt_forever_burn == was.rekt_forever_burn
            &&& new.fee_burn_bps == was.fee_burn_bps
            &&& new.fee_treasury_bps == was.fee_treasury_bps
            &&& new.win_share_bps == was.win_share_bps
            &&& new.win_burn_bps == was.win_burn_bps
            &&& new.loss_vault_bps == was.loss_vault_bps
            &&& new.loss_burn_bps == was.loss_burn_bps
            &&& new.jackpot_share_bps == was.jackpot_share_bps
            &&& new.win_cap_mult == was.win_cap_mult
            &&& new.paused == was.paused
            &&& new.bump == was.bump
            &&& new.vault_bump == was.vault_bump
            &&& new.treasury_bump == was.treasury_bump
        }),
        final(ctx).program_id == old(ctx).program_id,
        final(ctx).bumps == old(ctx).bumps,
        final(ctx).accounts == (AdminOnly {
            config: Account {
                info: old(ctx).accounts.config.info,
                data: final(ctx).accounts.config.data,
            },
            ..old(ctx).accounts
        }),
{
}

/// The given key becomes the mint, and nothing else changes.
pub proof fn the_mint_is_replaced(
    ctx: &mut Context<AdminOnly, ()>,
    new_mint: Pubkey,
    r: Result<(), GrindieError>,
)
    requires
        call_ensures(set_mint, (ctx, new_mint), r),
    ensures
        ({
            let was = old(ctx).accounts.config.data;
            let new = final(ctx).accounts.config.data;
            &&& r is Ok
            &&& new.admin == was.admin
            &&& new.mint == new_mint
            &&& new.outcome_authority == was.outcome_authority
            &&& new.content_root == was.content_root
            &&& new.holder_threshold == was.holder_threshold
            &&& new.buyin_min == was.buyin_min
            &&& new.buyin_max == was.buyin_max
            &&& new.session_fee == was.session_fee
            &&& new.nft_mint_fee == was.nft_mint_fee
            &&& new.rekt_forever_burn == was.rekt_forever_burn
            &&& new.fee_burn_bps == was.fee_burn_bps
            &&& new.fee_treasury_bps == was.fee_treasury_bps
            &&& new.win_share_bps == was.win_share_bps
            &&& new.win_burn_bps == was.win_burn_bps
            &&& new.loss_vault_bps == was.loss_vault_bps
            &&& new.loss_burn_bps == was.loss_burn_bps
            &&& new.jackpot_share_bps == was.jackpot_share_bps
            &&& new.win_cap_mult == was.win_cap_mult
            &&& new.paused == was.paused
            &&& new.bump == was.bump
            &&& new.vault_bump == was.vault_bump
            &&& new.treasury_bump == was.treasury_bump
        }),
        final(ctx).program_id == old(ctx).program_id,
        final(ctx).bumps == old(ctx).bumps,
        final(ctx).accounts == (AdminOnly {
            config: Account {
                info: old(ctx).accounts.config.info,
                data: final(ctx).accounts.config.data,
            },
            ..old(ctx).accounts
        }),
{
}

/// The given hash becomes the content root, and nothing else changes.
pub proof fn the_content_root_is_replaced(
    ctx: &mut Context<AdminOnly, ()>,
    root: [u8; 32],
    r: Result<(), GrindieError>,
)
    requires
        call_ensures(set_content_root, (ctx, root), r),
    ensures
        ({
            let was = old(ctx).accounts.config.data;
            let new = final(ctx).accounts.config.data;
            &&& r is Ok
            &&& new.admin == was.admin
            &&& new.mint == was.mint
            &&& new.outcome_authority == was.outcome_authority
            &&& new.content_root == root
            &&& new.holder_threshold == was.holder_threshold
            &&& new.buyin_min == was.buyin_min
            &&& new.buyin_max == was.buyin_max
            &&& new.session_fee == was.session_fee
            &&& new.nft_mint_fee == was.nft_mint_fee
            &&& new.rekt_forever_burn == was.rekt_forever_burn
            &&& new.fee_burn_bps == was.fee_burn_bps
            &&& new.fee_treasury_bps == was.fee_treasury_bps
            &&& new.win_share_bps == was.win_share_bps
            &&& new.win_burn_bps == was.win_burn_bps
            &&& new.loss_vault_bps == was.loss_vault_bps
            &&& new.loss_burn_bps == was.loss_burn_bps
            &&& new.jackpot_share_bps == was.jackpot_share_bps
            &&& new.win_cap_mult == was.win_cap_mult
            &&& new.paused == was.paused
            &&& new.bump == was.bump
            &&& new.vault_bump == was.vault_bump
            &&& new.treasury_bump == was.treasury_bump
        }),
        final(ctx).program_id == old(ctx).program_id,
        final(ctx).bumps == old(ctx).bumps,
        final(ctx).accounts == (AdminOnly {
            config: Account {
                info: old(ctx).accounts.config.info,
                data: final(ctx).accounts.config.data,
            },
            ..old(ctx).accounts
        }),
{
}

/// The program is paused, or not, as it is asked for, and nothing else changes.
pub proof fn the_pause_is_set(
    ctx: &mut Context<AdminOnly, ()>,
    paused: bool,
    r: Result<(), GrindieError>,
)
    requires
        call_ensures(set_paused, (ctx, paused), r),
    ensures
        ({
            let was = old(ctx).accounts.config.data;
            let new = final(ctx).accounts.config.data;
            &&& r is Ok
            &&& new.admin == was.admin
            &&& new.mint == was.mint
            &&& new.outcome_authority == was.outcome_authority
            &&& new.content_root == was.content_root
            &&& new.holder_threshold == was.holder_threshold
            &&& new.buyin_min == was.buyin_min
            &&& new.buyin_max == was.buyin_max
            &&& new.session_fee == was.session_fee
            &&& new.nft_mint_fee == was.nft_mint_fee
            &&& new.rekt_forever_burn == was.rekt_forever_burn
            &&& new.fee_burn_bps == was.fee_burn_bps
            &&& new.fee_treasury_bps == was.fee_treasury_bps
            &&& new.win_share_bps == was.win_share_bps
            &&& new.win_burn_bps == was.win_burn_bps
            &&& new.loss_vault_bps == was.loss_vault_bps
            &&& new.loss_burn_bps == was.loss_burn_bps
            &&& new.jackpot_share_bps == was.jackpot_share_bps
            &&& new.win_cap_mult == was.win_cap_mult
            &&& new.paused == paused
            &&& new.bump == was.bump
            &&& new.vault_bump == was.vault_bump
            &&& new.treasury_bump == was.treasury_bump
        }),
        final(ctx).program_id == old(ctx).program_id,
        final(ctx).bumps == old(ctx).bumps,
        final(ctx).accounts == (AdminOnly {
            config: Account {
                info: old(ctx).accounts.config.info,
                data: final(ctx).accounts.config.data,
            },
            ..old(ctx).accounts
        }),
{
}

/// A seeding moves exactly the given amount from the source to the vault, whatever
/// either holds, and the admin signs for it.
pub proof fn a_seeding_moves_the_amount(
    ctx: Context<SeedVault, ()>,
    amount: u64,
    r: Result<TokenOp, GrindieError>,
)
    requires
        call_ensures(seed_vault, (&ctx, amount), r),
    ensures
        r matches Ok(op) && op matches TokenOp::TransferChecked {
            program,
            from,
            mint,
            to,
            authority,
            amount: moved,
            decimals,
        } && {
            &&& program == ctx.accounts.token_program.key
            &&& from == ctx.accounts.source_ata.info.key
            &&& to == ctx.accounts.vault_ata.info.key
            &&& mint == ctx.accounts.mint.info.key
            &&& decimals == ctx.accounts.mint.data.decimals
            &&& moved == amount
            &&& authority == (Authority::Wallet { key: ctx.accounts.admin.key })
        },
{
}

/// A withdrawal of fees moves exactly the given amount from the treasury to the
/// destination, whatever either holds, and the treasury signs for it.
pub proof fn a_withdrawal_of_fees_moves_the_amount(
    ctx: Context<WithdrawTreasury, ()>,
    amount: u64,
    r: Result<TokenOp, GrindieError>,
)
    requires
        call_ensures(withdraw_treasury, (&ctx, amount), r),
    ensures
        r matches Ok(op) && op matches TokenOp::TransferChecked {
            program,
            from,
            mint,
            to,
            authority,
            amount: moved,
            decimals,
        } && {
            &&& program == ctx.accounts.token_program.key
            &&& from == ctx.accounts.treasury_ata.info.key
            &&& to == ctx.accounts.dest_ata.info.key
            &&& mint == ctx.accounts.mint.info.key
            &&& decimals == ctx.accounts.mint.data.decimals
            &&& moved == amount
            &&& authority == (Authority::Program {
                key: ctx.accounts.treasury.key,
                pda: Pda::Treasury,
                bump: ctx.accounts.config.data.treasury_bump,
            })
        },
{
}

/// A withdrawal of prizes moves exactly the given amount from the vault to the
/// destination, whatever either holds, and the vault signs for it.
pub proof fn a_withdrawal_of_prizes_moves_the_amount(
    ctx: Context<WithdrawVault, ()>,
    amount: u64,
    r: Result<TokenOp, GrindieError>,
)
    requires
        call_ensures(withdraw_vault, (&ctx, amount), r),
    ensures
        r matches Ok(op) && op matches TokenOp::TransferChecked {
            program,
            from,
            mint,
            to,
            authority,
            amount: moved,
            decimals,
        } && {
            &&& program == ctx.accounts.token_program.key
            &&& from == ctx.accounts.vault_ata.info.key
            &&& to == ctx.accounts.dest_ata.info.key
            &&& mint == ctx.accounts.mint.info.key
            &&& decimals == ctx.accounts.mint.data.decimals
            &&& moved == amount
            &&& authority == (Authority::Program {
                key: ctx.accounts.vault.key,
                pda: Pda::Vault,
                bump: ctx.accounts.config.data.vault_bump,
            })
        },
{
}

/// The treasury token account is closed in favour of the admin, and the treasury
/// signs for it.
pub proof fn the_treasury_account_is_closed(
    ctx: Context<CloseTreasuryAta, ()>,
    r: Result<TokenOp, GrindieError>,
)
    requires
        call_ensures(close_treasury_ata, (&ctx,), r),
    ensures
        r matches Ok(op) && op matches TokenOp::CloseAccount {
            program,
            account,
            destination,
            authority,
        } && {
            &&& program == ctx.accounts.token_program.key
            &&& account == ctx.accounts.treasury_ata.info.key
            &&& destination == ctx.accounts.admin.key
            &&& authority == (Authority::Program {
                key: ctx.accounts.treasury.key,
                pda: Pda::Treasury,
                bump: ctx.accounts.config.data.treasury_bump,
            })
        },
{
}

/// The vault token account is closed in favour of the admin, and the vault signs for
/// it.
pub proof fn the_vault_account_is_closed(
    ctx: Context<CloseVaultAta, ()>,
    r: Result<TokenOp, GrindieError>,
)
    requires
        call_ensures(close_vault_ata, (&ctx,), r),
    ensures
        r matches Ok(op) && op matches TokenOp::CloseAccount {
            program,
            account,
            destination,
            authority,
        } && {
            &&& program == ctx.accounts.token_program.key
            &&& account == ctx.accounts.vault_ata.info.key
            &&& destination == ctx.accounts.admin.key
            &&& authority == (Authority::Program {
                key: ctx.accounts.vault.key,
                pda: Pda::Vault,
                bump: ctx.accounts.config.data.vault_bump,
            })
        },
{
}

/// The configuration is closed in favour of the admin.
pub proof fn the_config_is_closed(
    ctx: Context<CloseConfig, ()>,
    r: Result<AccountClosure, GrindieError>,
)
    requires
        call_ensures(close_config, (&ctx,), r),
    ensures
        r matches Ok(x) && x.account == ctx.accounts.config.info.key && x.destination
            == ctx.accounts.admin.key,
{
}

/// A transfer from a player moves the given amount between the given accounts, and
/// the player signs for it.
pub proof fn a_player_transfers_the_amount(
    tp: AccountInfo,
    mint: Account<Mint>,
    from: Account<TokenAccount>,
    to: Account<TokenAccount>,
    player: AccountInfo,
    amount: u64,
    r: TokenOp,
)
    requires
        call_ensures(xfer_from_player, (&tp, &mint, &from, &to, &player, amount), r),
    ensures
        r == (TokenOp::TransferChecked {
            program: tp.key,
            from: from.info.key,
            mint: mint.info.key,
            to: to.info.key,
            authority: Authority::Wallet { key: player.key },
            amount,
            decimals: mint.data.decimals,
        }),
{
}

/// A burn from a player destroys the given amount, and the player signs for it.
pub proof fn a_player_burns_the_amount(
    tp: AccountInfo,
    mint: Account<Mint>,
    from: Account<TokenAccount>,
    player: AccountInfo,
    amount: u64,
    r: TokenOp,
)
    requires
        call_ensures(burn_from_player, (&tp, &mint, &from, &player, amount), r),
    ensures
        r == (TokenOp::Burn {
            program: tp.key,
            mint: mint.info.key,
            from: from.info.key,
            authority: Authority::Wallet { key: player.key },
            amount,
        }),
{
}

/// A refused entry writes nothing. With a fee split of at most a whole it is refused
/// for a pause, then for a stake out of range, then for too few tokens held, and for
/// nothing else.
pub proof fn a_refused_entry_writes_nothing(
    ctx: &mut Context<StartArena, StartArenaBumps>,
    session_id: u64,
    buyin: u64,
    slot: u64,
    r: Result<Vec<TokenOp>, GrindieError>,
)
    requires
        call_ensures(start_session_arena, (ctx, session_id, buyin, slot), r),
    ensures
        r is Err ==> *final(ctx) == *old(ctx),
        ({
            let c = old(ctx).accounts.config.data;
            let ranged = c.buyin_min <= buyin <= c.buyin_max;
            let holds = old(ctx).accounts.player_ata.data.amount >= c.holder_threshold;
            &&& c.paused <==> (r matches Err(GrindieError::Paused))
            &&& (!c.paused && !ranged) <==> (r matches Err(GrindieError::BuyinOutOfRange))
            &&& (!c.paused && ranged && !holds) <==> (r matches Err(GrindieError::NotHolder))
            &&& c.fee_burn_bps <= 10_000 && !c.paused && ranged && holds ==> r is Ok
        }),
{
    let c = old(ctx).accounts.config.data;
    if c.fee_burn_bps <= 10_000 {
        crate::money::lemma_share_bounded(c.session_fee, c.fee_burn_bps);
    }
}

/// A started session names the player and the id, starts with the stake at the given
/// slot, is open, and holds no result. Nothing else is written.
pub proof fn a_started_session_is_written(
    ctx: &mut Context<StartArena, StartArenaBumps>,
    session_id: u64,
    buyin: u64,
    slot: u64,
    r: Result<Vec<TokenOp>, GrindieError>,
)
    requires
        call_ensures(start_session_arena, (ctx, session_id, buyin, slot), r),
        r is Ok,
    ensures
        ({
            let s = final(ctx).accounts.session.data;
            &&& s.player == old(ctx).accounts.player.key
            &&& s.session_id == session_id
            &&& s.buyin == buyin
            &&& s.start_stack == buyin
            &&& s.final_stack == 0
            &&& forall|i: int| 0 <= i < 32 ==> s.choices_hash@[i] == 0
            &&& s.status == 0
            &&& s.ending == 255
            &&& s.created_slot == slot
            &&& s.bump == old(ctx).bumps.session
            &&& s.escrow_bump == old(ctx).bumps.escrow
        }),
        final(ctx).program_id == old(ctx).program_id,
        final(ctx).bumps == old(ctx).bumps,
        final(ctx).accounts == (StartArena {
            session: Account {
                info: old(ctx).accounts.session.info,
                data: final(ctx).accounts.session.data,
            },
            ..old(ctx).accounts
        }),
{
}

/// The payments of an entry, `burn` being the low 64 bits of the burned share of the
/// fee, which is the share itself for a split of at most a whole: the burn and the
/// rest of the fee for the treasury, each where it is not zero, and then the stake
/// into escrow. All of it comes from the player, who signs. An entry whose `burn` is
/// more than the fee overflows.
pub proof fn an_entry_is_paid_like_this(
    ctx: &mut Context<StartArena, StartArenaBumps>,
    session_id: u64,
    buyin: u64,
    slot: u64,
    r: Result<Vec<TokenOp>, GrindieError>,
    burn: u64,
    k: int,
)
    requires
        call_ensures(start_session_arena, (ctx, session_id, buyin, slot), r),
        ({
            let c = old(ctx).accounts.config.data;
            &&& !c.paused
            &&& c.buyin_min <= buyin <= c.buyin_max
            &&& old(ctx).accounts.player_ata.data.amount >= c.holder_threshold
            &&& (burn + k * 0x1_0000_0000_0000_0000) * 10_000 <= c.session_fee * c.fee_burn_bps < (
            burn + k * 0x1_0000_0000_0000_0000 + 1) * 10_000
        }),
    ensures
        ({
            let a = old(ctx).accounts;
            let fee = a.config.data.session_fee;
            let authority = Authority::Wallet { key: a.player.key };
            let burned = TokenOp::Burn {
                program: a.token_program.key,
                mint: a.mint.info.key,
                from: a.player_ata.info.key,
                authority,
                amount: burn,
            };
            let tax = TokenOp::TransferChecked {
                program: a.token_program.key,
                from: a.player_ata.info.key,
                mint: a.mint.info.key,
                to: a.treasury_ata.info.key,
                authority,
                amount: (fee - burn) as u64,
                decimals: a.mint.data.decimals,
            };
            let stake = TokenOp::TransferChecked {
                program: a.token_program.key,
                from: a.player_ata.info.key,
                mint: a.mint.info.key,
                to: a.escrow_ata.info.key,
                authority,
                amount: buyin,
                decimals: a.mint.data.decimals,
            };
            &&& burn > fee ==> (r matches Err(GrindieError::Overflow))
            &&& burn <= fee ==> (r matches Ok(ops) && ops@ == when(burn > 0, burned) + when(
                burn < fee,
                tax,
            ) + seq![stake])
        }),
{
}

/// The instructions of a settlement, in order: the stake goes from escrow to the
/// player, even if it is nothing for a winner; the win goes from the vault to the
/// player, and its rest is burned from the vault; the loss goes from escrow to the
/// vault, and its rest is burned from escrow; and the extra burn is made from the
/// vault. What is zero is left out. Escrow and vault sign with their own seeds.
pub proof fn a_settlement_is_carried_out_like_this(
    a: FinalizeArena,
    x: Settlement,
    r: Vec<TokenOp>,
)
    requires
        call_ensures(list_settlement_ops, (&a, &x), r),
    ensures
        ({
            let escrow = Authority::Program {
                key: a.escrow.key,
                pda: Pda::Escrow {
                    player: a.session.data.player,
                    session_id: a.session.data.session_id,
                },
                bump: a.session.data.escrow_bump,
            };
            let vault = Authority::Program {
                key: a.vault.key,
                pda: Pda::Vault,
                bump: a.config.data.vault_bump,
            };
            let stake = TokenOp::TransferChecked {
                program: a.token_program.key,
                from: a.escrow_ata.info.key,
                mint: a.mint.info.key,
                to: a.player_ata.info.key,
                authority: escrow,
                amount: x.stake_to_player,
                decimals: a.mint.data.decimals,
            };
            let win = TokenOp::TransferChecked {
                program: a.token_program.key,
                from: a.vault_ata.info.key,
                mint: a.mint.info.key,
                to: a.player_ata.info.key,
                authority: vault,
                amount: x.win_to_player,
                decimals: a.mint.data.decimals,
            };
            let win_burn = TokenOp::Burn {
                program: a.token_program.key,
                mint: a.mint.info.key,
                from: a.vault_ata.info.key,
                authority: vault,
                amount: x.win_burn,
            };
            let loss = TokenOp::TransferChecked {
                program: a.token_program.key,
                from: a.escrow_ata.info.key,
                mint: a.mint.info.key,
                to: a.vault_ata.info.key,
                authority: escrow,
                amount: x.loss_to_vault,
                decimals: a.mint.data.decimals,
            };
            let loss_burn = TokenOp::Burn {
                program: a.token_program.key,
                mint: a.mint.info.key,
                from: a.escrow_ata.info.key,
                authority: escrow,
                amount: x.loss_burn,
            };
            let extra = TokenOp::Burn {
                program: a.token_program.key,
                mint: a.mint.info.key,
                from: a.vault_ata.info.key,
                authority: vault,
                amount: x.rekt_burn,
            };
            r@ == when(x.won || x.stake_to_player > 0, stake) + when(x.win_to_player > 0, win) + when(
                x.win_burn > 0,
                win_burn,
            ) + when(x.loss_to_vault > 0, loss) + when(x.loss_burn > 0, loss_burn) + when(
                x.rekt_burn > 0,
                extra,
            )
        }),
{
}

/// A refused settlement writes nothing. With shares of at most a whole it is refused
/// for an unknown ending, then for a session that is not open, then for a win whose
/// cap does not fit into 64 bits, and for nothing else.
pub proof fn a_refused_settlement_writes_nothing(
    ctx: &mut Context<FinalizeArena, ()>,
    final_stack: u64,
    ending: u8,
    choices_hash: [u8; 32],
    r: Result<ArenaOutcome, GrindieError>,
)
    requires
        call_ensures(finalize_arena, (ctx, final_stack, ending, choices_hash), r),
    ensures
        r is Err ==> *final(ctx) == *old(ctx),
        ({
            let c = old(ctx).accounts.config.data;
            let s = old(ctx).accounts.session.data;
            let huge = final_stack > s.buyin && s.buyin * c.win_cap_mult > 0xffff_ffff_ffff_ffff;
            let open = ending <= 5 && s.status == 0;
            &&& ending > 5 <==> (r matches Err(GrindieError::BadEnding))
            &&& (ending <= 5 && s.status != 0) <==> (r matches Err(GrindieError::SessionFinalized))
            &&& open && huge ==> (r matches Err(GrindieError::Overflow))
            &&& c.win_share_bps <= 10_000 && c.loss_burn_bps <= 10_000 && open && !huge ==> r is Ok
        }),
{
    let c = old(ctx).accounts.config.data;
    let s = old(ctx).accounts.session.data;
    if final_stack > s.buyin {
        let win = crate::money::capped_win(c, s.buyin, final_stack);
        if c.win_share_bps <= 10_000 {
            crate::money::lemma_share_bounded(win as u64, c.win_share_bps);
        }
    } else if c.loss_burn_bps <= 10_000 {
        crate::money::lemma_share_bounded((s.buyin - final_stack) as u64, c.loss_burn_bps);
    }
}

/// A settled session holds the result and is closed to another one; who played, for
/// what stake and since when stays. The event names the player, the session and the
/// result. Nothing else is written.
pub proof fn a_settled_session_is_written(
    ctx: &mut Context<FinalizeArena, ()>,
    final_stack: u64,
    ending: u8,
    choices_hash: [u8; 32],
    r: Result<ArenaOutcome, GrindieError>,
)
    requires
        call_ensures(finalize_arena, (ctx, final_stack, ending, choices_hash), r),
        r is Ok,
    ensures
        ({
            let was = old(ctx).accounts.session.data;
            let s = final(ctx).accounts.session.data;
            let event = r->Ok_0.event;
            &&& s.final_stack == final_stack
            &&& s.ending == ending
            &&& s.choices_hash == choices_hash
            &&& s.status == 1
            &&& s.player == was.player
            &&& s.session_id == was.session_id
            &&& s.buyin == was.buyin
            &&& s.start_stack == was.start_stack
            &&& s.created_slot == was.created_slot
            &&& s.bump == was.bump
            &&& s.escrow_bump == was.escrow_bump
            &&& event.player == was.player
            &&& event.session_id == was.session_id
            &&& event.ending == ending
            &&& event.final_stack == final_stack
        }),
        final(ctx).program_id == old(ctx).program_id,
        final(ctx).accounts == (FinalizeArena {
            session: Account {
                info: old(ctx).accounts.session.info,
                data: final(ctx).accounts.session.data,
            },
            ..old(ctx).accounts
        }),
{
}

/// What a settled win moves, `win` being the smaller one of the gain and the stake
/// times the cap, `paid` the low 64 bits of the player's share of it, which is the
/// share itself for a split of at most a whole, and `extra` the extra burn: the stake
/// goes back from escrow, the vault pays the player `paid` and burns the rest of the
/// win, and the extra burn follows.
pub proof fn a_settled_win_moves_this(
    ctx: &mut Context<FinalizeArena, ()>,
    final_stack: u64,
    ending: u8,
    choices_hash: [u8; 32],
    r: Result<ArenaOutcome, GrindieError>,
    win: int,
    paid: u64,
    k: int,
    extra: u64,
)
    requires
        call_ensures(finalize_arena, (ctx, final_stack, ending, choices_hash), r),
        ({
            let c = old(ctx).accounts.config.data;
            let s = old(ctx).accounts.session.data;
            let held = old(ctx).accounts.vault_ata.data.amount;
            &&& ending <= 5
            &&& s.status == 0
            &&& final_stack > s.buyin
            &&& s.buyin * c.win_cap_mult <= 0xffff_ffff_ffff_ffff
            &&& win <= final_stack - s.buyin
            &&& win <= s.buyin * c.win_cap_mult
            &&& win == final_stack - s.buyin || win == s.buyin * c.win_cap_mult
            &&& (paid + k * 0x1_0000_0000_0000_0000) * 10_000 <= win * c.win_share_bps < (paid + k
                * 0x1_0000_0000_0000_0000 + 1) * 10_000
            &&& ending != 0 ==> extra == 0
            &&& ending == 0 ==> extra <= c.rekt_forever_burn && extra <= held && (extra
                == c.rekt_forever_burn || extra == held)
        }),
    ensures
        ({
            let a = old(ctx).accounts;
            let escrow = Authority::Program {
                key: a.escrow.key,
                pda: Pda::Escrow {
                    player: a.session.data.player,
                    session_id: a.session.data.session_id,
                },
                bump: a.session.data.escrow_bump,
            };
            let vault = Authority::Program {
                key: a.vault.key,
                pda: Pda::Vault,
                bump: a.config.data.vault_bump,
            };
            let stake = TokenOp::TransferChecked {
                program: a.token_program.key,
                from: a.escrow_ata.info.key,
                mint: a.mint.info.key,
                to: a.player_ata.info.key,
                authority: escrow,
                amount: a.session.data.buyin,
                decimals: a.mint.data.decimals,
            };
            let prize = TokenOp::TransferChecked {
                program: a.token_program.key,
                from: a.vault_ata.info.key,
                mint: a.mint.info.key,
                to: a.player_ata.info.key,
                authority: vault,
                amount: paid,
                decimals: a.mint.data.decimals,
            };
            let rest = TokenOp::Burn {
                program: a.token_program.key,
                mint: a.mint.info.key,
                from: a.vault_ata.info.key,
                authority: vault,
                amount: (win - paid) as u64,
            };
            let last = TokenOp::Burn {
                program: a.token_program.key,
                mint: a.mint.info.key,
                from: a.vault_ata.info.key,
                authority: vault,
                amount: extra,
            };
            &&& paid > win ==> (r matches Err(GrindieError::Overflow))
            &&& paid <= win ==> (r matches Ok(outcome) && outcome.ops@ == seq![stake] + when(
                paid > 0,
                prize,
            ) + when(paid < win, rest) + when(extra > 0, last))
        }),
{
    let c = old(ctx).accounts.config.data;
    let s = old(ctx).accounts.session.data;
    assert(win == crate::money::capped_win(c, s.buyin, final_stack));
    assert(0 <= s.buyin * c.win_cap_mult) by (nonlinear_arith)
        requires
            0 <= s.buyin,
            0 <= c.win_cap_mult,
    ;
}

/// What a settled loss moves, `burn` being the low 64 bits of the burned share of what
/// is missing of the stake, which is the share itself for a split of at most a whole,
/// and `extra` the extra burn: what is left of the stake goes to the player, the rest
/// of the loss to the vault, and `burn` is burned, all from escrow; the extra burn
/// follows from the vault. What is zero is left out.
pub proof fn a_settled_loss_moves_this(
    ctx: &mut Context<FinalizeArena, ()>,
    final_stack: u64,
    ending: u8,
    choices_hash: [u8; 32],
    r: Result<ArenaOutcome, GrindieError>,
    burn: u64,
    k: int,
    extra: u64,
)
    requires
        call_ensures(finalize_arena, (ctx, final_stack, ending, choices_hash), r),
        ({
            let c = old(ctx).accounts.config.data;
            let s = old(ctx).accounts.session.data;
            let held = old(ctx).accounts.vault_ata.data.amount;
            let loss = s.buyin - final_stack;
            &&& ending <= 5
            &&& s.status == 0
            &&& 0 <= loss
            &&& (burn + k * 0x1_0000_0000_0000_0000) * 10_000 <= loss * c.loss_burn_bps < (burn + k
                * 0x1_0000_0000_0000_0000 + 1) * 10_000
            &&& ending != 0 ==> extra == 0
            &&& ending == 0 ==> extra <= c.rekt_forever_burn && extra <= held && (extra
                == c.rekt_forever_burn || extra == held)
        }),
    ensures
        ({
            let a = old(ctx).accounts;
            let loss = a.session.data.buyin - final_stack;
            let escrow = Authority::Program {
                key: a.escrow.key,
                pda: Pda::Escrow {
                    player: a.session.data.player,
                    session_id: a.session.data.session_id,
                },
                bump: a.session.data.escrow_bump,
            };
            let vault = Authority::Program {
                key: a.vault.key,
                pda: Pda::Vault,
                bump: a.config.data.vault_bump,
            };
            let left = TokenOp::TransferChecked {
                program: a.token_program.key,
                from: a.escrow_ata.info.key,
                mint: a.mint.info.key,
                to: a.player_ata.info.key,
                authority: escrow,
                amount: final_stack,
                decimals: a.mint.data.decimals,
            };
            let rest = TokenOp::TransferChecked {
                program: a.token_program.key,
                from: a.escrow_ata.info.key,
                mint: a.mint.info.key,
                to: a.vault_ata.info.key,
                authority: escrow,
                amount: (loss - burn) as u64,
                decimals: a.mint.data.decimals,
            };
            let burned = TokenOp::Burn {
                program: a.token_program.key,
                mint: a.mint.info.key,
                from: a.escrow_ata.info.key,
                authority: escrow,
                amount: burn,
            };
            let last = TokenOp::Burn {
                program: a.token_program.key,
                mint: a.mint.info.key,
                from: a.vault_ata.info.key,
                authority: vault,
                amount: extra,
            };
            &&& burn > loss ==> (r matches Err(GrindieError::Overflow))
            &&& burn <= loss ==> (r matches Ok(outcome) && outcome.ops@ == when(
                final_stack > 0,
                left,
            ) + when(burn < loss, rest) + when(burn > 0, burned) + when(extra > 0, last))
        }),
{
}

/// An ending is minted exactly when it is one of the six, the name has at most 64
/// bytes and the URI at most 200. Otherwise the minting is refused and nothing is
/// written.
pub proof fn an_ending_is_minted_exactly_then(
    ctx: &mut Context<MintEndingNft, MintEndingNftBumps>,
    session_id: u64,
    ending: u8,
    name: String,
    uri: String,
    r: Result<MintOutcome, GrindieError>,
)
    requires
        call_ensures(mint_ending_nft, (ctx, session_id, ending, name, uri), r),
    ensures
        ({
            let fits = ending <= 5 && vstd::utf8::encode_utf8(name@).len() <= 64
                && vstd::utf8::encode_utf8(uri@).len() <= 200;
            &&& fits <==> r is Ok
            &&& !fits <==> (r matches Err(GrindieError::BadEnding))
            &&& !fits ==> *final(ctx) == *old(ctx)
        }),
{
}

/// A minting burns the mint fee from the player, where there is one, and asks for one
/// asset: the player pays for it and owns it, the configuration may change it, it has
/// the given name and URI, and it is frozen. The receipt and the event name the
/// player, the session and the ending. Nothing else is written.
pub proof fn a_minting_does_this(
    ctx: &mut Context<MintEndingNft, MintEndingNftBumps>,
    session_id: u64,
    ending: u8,
    name: String,
    uri: String,
    r: Result<MintOutcome, GrindieError>,
)
    requires
        call_ensures(mint_ending_nft, (ctx, session_id, ending, name, uri), r),
        r is Ok,
    ensures
        ({
            let a = old(ctx).accounts;
            let fee = a.config.data.nft_mint_fee;
            let receipt = final(ctx).accounts.receipt.data;
            let burned = TokenOp::Burn {
                program: a.token_program.key,
                mint: a.mint.info.key,
                from: a.player_ata.info.key,
                authority: Authority::Wallet { key: a.player.key },
                amount: fee,
            };
            r matches Ok(outcome) && {
                &&& outcome.ops@ == when(fee > 0, burned)
                &&& outcome.asset.program == a.mpl_core.key
                &&& outcome.asset.asset == a.asset.key
                &&& outcome.asset.payer == a.player.key
                &&& outcome.asset.owner == a.player.key
                &&& outcome.asset.update_authority == a.config.info.key
                &&& outcome.asset.name@ == name@
                &&& outcome.asset.uri@ == uri@
                &&& outcome.asset.frozen
                &&& outcome.event.player == a.player.key
                &&& outcome.event.session_id == session_id
                &&& outcome.event.ending == ending
                &&& receipt.player == a.player.key
                &&& receipt.session_id == session_id
                &&& receipt.ending == ending
                &&& receipt.bump == old(ctx).bumps.receipt
            }
        }),
        final(ctx).program_id == old(ctx).program_id,
        final(ctx).bumps == old(ctx).bumps,
        final(ctx).accounts == (MintEndingNft {
            receipt: Account {
                info: old(ctx).accounts.receipt.info,
                data: final(ctx).accounts.receipt.data,
            },
            ..old(ctx).accounts
        }),
{
}

} // verus!
