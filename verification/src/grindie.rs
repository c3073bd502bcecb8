//! The instructions of the program.
//!
//! An instruction runs on accounts that its constraints accepted. It writes the
//! accounts that the program owns, and returns what it asks of the token and
//! asset programs, in order. If one of those requests fails, the whole
//! transaction is undone.
use crate::accounts::{Account, AccountInfo, Context, Mint, TokenAccount};
use crate::contexts::{
    AdminOnly, CloseConfig, CloseTreasuryAta, CloseVaultAta, FinalizeArena, Initialize,
    InitializeBumps, MintEndingNft, MintEndingNftBumps, SeedVault, StartArena, StartArenaBumps,
    WithdrawTreasury, WithdrawVault,
};
use crate::error::GrindieError;
use crate::money::{enter, settle, FeeSplit, Settlement};
use crate::ops::{
    AccountClosure, ArenaOutcome, Authority, CreateAsset, MintOutcome, NftMinted, SessionFinalized,
    TokenOp,
};
use crate::params::{apply_params, validate_params};
use crate::pda::Pda;
use crate::pubkey::Pubkey;
use crate::state::{
    Config, ConfigParams, NftReceipt, Session, ENDING_NONE, END_MAX, STATUS_ACTIVE,
    STATUS_FINALIZED,
};
use vstd::prelude::*;

verus! {

/// What `initialize` leaves of its context: the configuration holds the keys of
/// the accounts, the parameters and the bumps, and the program is not paused.
pub open spec fn initialized(
    ctx: Context<Initialize, InitializeBumps>,
    p: ConfigParams,
) -> Context<Initialize, InitializeBumps> {
    let a = ctx.accounts;
    let data = Config {
        admin: a.admin.key,
        mint: a.mint.info.key,
        outcome_authority: a.outcome_authority.key,
        content_root: crate::state::zero_hash(),
        paused: false,
        bump: ctx.bumps.config,
        vault_bump: ctx.bumps.vault,
        treasury_bump: ctx.bumps.treasury,
        ..a.config.data
    }.with_params(p);
    Context {
        accounts: Initialize { config: Account { data, ..a.config }, ..a },
        ..ctx
    }
}

/// Writes the first configuration.
pub fn initialize(ctx: &mut Context<Initialize, InitializeBumps>, p: ConfigParams) -> (r: Result<
    (),
    GrindieError,
>)
    ensures
        match p.refusal() {
            Some(e) => r == Err::<(), GrindieError>(e) && *final(ctx) == *old(ctx),
            None => r == Ok::<(), GrindieError>(()) && *final(ctx) == initialized(*old(ctx), p),
        },
{
    validate_params(&p)?;
    ctx.accounts.config.data.admin = ctx.accounts.admin.key;
    ctx.accounts.config.data.mint = ctx.accounts.mint.info.key;
    ctx.accounts.config.data.outcome_authority = ctx.accounts.outcome_authority.key;
    ctx.accounts.config.data.content_root = [0u8; 32];
    apply_params(&mut ctx.accounts.config.data, &p);
    ctx.accounts.config.data.paused = false;
    ctx.accounts.config.data.bump = ctx.bumps.config;
    ctx.accounts.config.data.vault_bump = ctx.bumps.vault;
    ctx.accounts.config.data.treasury_bump = ctx.bumps.treasury;
    Ok(())
}

/// The context with another configuration.
pub open spec fn with_config(ctx: Context<AdminOnly, ()>, c: Config) -> Context<AdminOnly, ()> {
    Context {
        accounts: AdminOnly {
            config: Account { data: c, ..ctx.accounts.config },
            ..ctx.accounts
        },
        ..ctx
    }
}

/// Replaces the parameters of the configuration.
pub fn update_config(ctx: &mut Context<AdminOnly, ()>, p: ConfigParams) -> (r: Result<
    (),
    GrindieError,
>)
    ensures
        match p.refusal() {
            Some(e) => r == Err::<(), GrindieError>(e) && *final(ctx) == *old(ctx),
            None => r == Ok::<(), GrindieError>(()) && *final(ctx) == with_config(
                *old(ctx),
                old(ctx).accounts.config.data.with_params(p),
            ),
        },
{
    validate_params(&p)?;
    apply_params(&mut ctx.accounts.config.data, &p);
    Ok(())
}

/// Replaces the backend signer.
pub fn set_outcome_authority(ctx: &mut Context<AdminOnly, ()>, new_authority: Pubkey) -> (r: Result<
    (),
    GrindieError,
>)
    ensures
        r == Ok::<(), GrindieError>(()),
        *final(ctx) == with_config(
            *old(ctx),
            (Config { outcome_authority: new_authority, ..old(ctx).accounts.config.data }),
        ),
{
    ctx.accounts.config.data.outcome_authority = new_authority;
    Ok(())
}

/// Hands the admin role over.
pub fn set_admin(ctx: &mut Context<AdminOnly, ()>, new_admin: Pubkey) -> (r: Result<
    (),
    GrindieError,
>)
    ensures
        r == Ok::<(), GrindieError>(()),
        *final(ctx) == with_config(
            *old(ctx),
            (Config { admin: new_admin, ..old(ctx).accounts.config.data }),
        ),
{
    ctx.accounts.config.data.admin = new_admin;
    Ok(())
}

/// Changes the token mint. This is for a time before any tokens sit in the vault
/// or the treasury: their token accounts belong to one mint, and what they hold
/// of the old one would be stranded.
pub fn set_mint(ctx: &mut Context<AdminOnly, ()>, new_mint: Pubkey) -> (r: Result<
    (),
    GrindieError,
>)
    ensures
        r == Ok::<(), GrindieError>(()),
        *final(ctx) == with_config(
            *old(ctx),
            (Config { mint: new_mint, ..old(ctx).accounts.config.data }),
        ),
{
    ctx.accounts.config.data.mint = new_mint;
    Ok(())
}

/// Records the hash of the active season content.
pub fn set_content_root(ctx: &mut Context<AdminOnly, ()>, root: [u8; 32]) -> (r: Result<
    (),
    GrindieError,
>)
    ensures
        r == Ok::<(), GrindieError>(()),
        *final(ctx) == with_config(
            *old(ctx),
            (Config { content_root: root, ..old(ctx).accounts.config.data }),
        ),
{
    ctx.accounts.config.data.content_root = root;
    Ok(())
}

/// Stops new sessions, or lets them start again.
pub fn set_paused(ctx: &mut Context<AdminOnly, ()>, paused: bool) -> (r: Result<(), GrindieError>)
    ensures
        r == Ok::<(), GrindieError>(()),
        *final(ctx) == with_config(
            *old(ctx),
            (Config { paused, ..old(ctx).accounts.config.data }),
        ),
{
    ctx.accounts.config.data.paused = paused;
    Ok(())
}

/// The transfer that tops the vault up.
pub open spec fn vault_seeding(a: SeedVault, amount: u64) -> TokenOp {
    TokenOp::TransferChecked {
        program: a.token_program.key,
        from: a.source_ata.info.key,
        mint: a.mint.info.key,
        to: a.vault_ata.info.key,
        authority: Authority::Wallet { key: a.admin.key },
        amount,
        decimals: a.mint.data.decimals,
    }
}

/// The admin tops up the vault from a token account of their own.
pub fn seed_vault(ctx: &Context<SeedVault, ()>, amount: u64) -> (r: Result<TokenOp, GrindieError>)
    ensures
        r == Ok::<TokenOp, GrindieError>(vault_seeding(ctx.accounts, amount)),
{
    Ok(
        TokenOp::TransferChecked {
            program: ctx.accounts.token_program.key,
            from: ctx.accounts.source_ata.info.key,
            mint: ctx.accounts.mint.info.key,
            to: ctx.accounts.vault_ata.info.key,
            authority: Authority::Wallet { key: ctx.accounts.admin.key },
            amount,
            decimals: ctx.accounts.mint.data.decimals,
        },
    )
}

/// The treasury as the authority that the program signs for.
pub open spec fn treasury_authority(key: Pubkey, c: Config) -> Authority {
    Authority::Program { key, pda: Pda::Treasury, bump: c.treasury_bump }
}

/// The vault as the authority that the program signs for.
pub open spec fn vault_authority(key: Pubkey, c: Config) -> Authority {
    Authority::Program { key, pda: Pda::Vault, bump: c.vault_bump }
}

/// The escrow of a session as the authority that the program signs for.
pub open spec fn escrow_authority(key: Pubkey, s: Session) -> Authority {
    Authority::Program {
        key,
        pda: Pda::Escrow { player: s.player, session_id: s.session_id },
        bump: s.escrow_bump,
    }
}

/// The transfer that withdraws fees.
pub open spec fn treasury_withdrawal(a: WithdrawTreasury, amount: u64) -> TokenOp {
    TokenOp::TransferChecked {
        program: a.token_program.key,
        from: a.treasury_ata.info.key,
        mint: a.mint.info.key,
        to: a.dest_ata.info.key,
        authority: treasury_authority(a.treasury.key, a.config.data),
        amount,
        decimals: a.mint.data.decimals,
    }
}

/// The admin withdraws collected fees.
pub fn withdraw_treasury(ctx: &Context<WithdrawTreasury, ()>, amount: u64) -> (r: Result<
    TokenOp,
    GrindieError,
>)
    ensures
        r == Ok::<TokenOp, GrindieError>(treasury_withdrawal(ctx.accounts, amount)),
{
    Ok(
        TokenOp::TransferChecked {
            program: ctx.accounts.token_program.key,
            from: ctx.accounts.treasury_ata.info.key,
            mint: ctx.accounts.mint.info.key,
            to: ctx.accounts.dest_ata.info.key,
            authority: Authority::Program {
                key: ctx.accounts.treasury.key,
                pda: Pda::Treasury,
                bump: ctx.accounts.config.data.treasury_bump,
            },
            amount,
            decimals: ctx.accounts.mint.data.decimals,
        },
    )
}

/// The transfer that withdraws from the vault.
pub open spec fn vault_withdrawal(a: WithdrawVault, amount: u64) -> TokenOp {
    TokenOp::TransferChecked {
        program: a.token_program.key,
        from: a.vault_ata.info.key,
        mint: a.mint.info.key,
        to: a.dest_ata.info.key,
        authority: vault_authority(a.vault.key, a.config.data),
        amount,
        decimals: a.mint.data.decimals,
    }
}

/// The admin withdraws from the vault in an emergency.
pub fn withdraw_vault(ctx: &Context<WithdrawVault, ()>, amount: u64) -> (r: Result<
    TokenOp,
    GrindieError,
>)
    ensures
        r == Ok::<TokenOp, GrindieError>(vault_withdrawal(ctx.accounts, amount)),
{
    Ok(
        TokenOp::TransferChecked {
            program: ctx.accounts.token_program.key,
            from: ctx.accounts.vault_ata.info.key,
            mint: ctx.accounts.mint.info.key,
            to: ctx.accounts.dest_ata.info.key,
            authority: Authority::Program {
                key: ctx.accounts.vault.key,
                pda: Pda::Vault,
                bump: ctx.accounts.config.data.vault_bump,
            },
            amount,
            decimals: ctx.accounts.mint.data.decimals,
        },
    )
}

/// The closure of the treasury token account.
pub open spec fn treasury_closure(a: CloseTreasuryAta) -> TokenOp {
    TokenOp::CloseAccount {
        program: a.token_program.key,
        account: a.treasury_ata.info.key,
        destination: a.admin.key,
        authority: treasury_authority(a.treasury.key, a.config.data),
    }
}

/// The admin closes the empty treasury token account, and gets its rent.
pub fn close_treasury_ata(ctx: &Context<CloseTreasuryAta, ()>) -> (r: Result<TokenOp, GrindieError>)
    ensures
        r == Ok::<TokenOp, GrindieError>(treasury_closure(ctx.accounts)),
{
    Ok(
        TokenOp::CloseAccount {
            program: ctx.accounts.token_program.key,
            account: ctx.accounts.treasury_ata.info.key,
            destination: ctx.accounts.admin.key,
            authority: Authority::Program {
                key: ctx.accounts.treasury.key,
                pda: Pda::Treasury,
                bump: ctx.accounts.config.data.treasury_bump,
            },
        },
    )
}

/// The closure of the vault token account.
pub open spec fn vault_closure(a: CloseVaultAta) -> TokenOp {
    TokenOp::CloseAccount {
        program: a.token_program.key,
        account: a.vault_ata.info.key,
        destination: a.admin.key,
        authority: vault_authority(a.vault.key, a.config.data),
    }
}

/// The admin closes the empty vault token account, and gets its rent.
pub fn close_vault_ata(ctx: &Context<CloseVaultAta, ()>) -> (r: Result<TokenOp, GrindieError>)
    ensures
        r == Ok::<TokenOp, GrindieError>(vault_closure(ctx.accounts)),
{
    Ok(
        TokenOp::CloseAccount {
            program: ctx.accounts.token_program.key,
            account: ctx.accounts.vault_ata.info.key,
            destination: ctx.accounts.admin.key,
            authority: Authority::Program {
                key: ctx.accounts.vault.key,
                pda: Pda::Vault,
                bump: ctx.accounts.config.data.vault_bump,
            },
        },
    )
}

/// The closure of the configuration.
pub open spec fn config_closure(a: CloseConfig) -> AccountClosure {
    AccountClosure { account: a.config.info.key, destination: a.admin.key }
}

/// The admin closes the configuration, and gets its rent. This ends a teardown:
/// it comes after both token accounts are closed.
pub fn close_config(ctx: &Context<CloseConfig, ()>) -> (r: Result<AccountClosure, GrindieError>)
    ensures
        r == Ok::<AccountClosure, GrindieError>(config_closure(ctx.accounts)),
{
    Ok(
        AccountClosure {
            account: ctx.accounts.config.info.key,
            destination: ctx.accounts.admin.key,
        },
    )
}

/// The transfer of `amount` from a token account of the player.
pub open spec fn player_transfer(
    tp: AccountInfo,
    mint: Account<Mint>,
    from: Account<TokenAccount>,
    to: Account<TokenAccount>,
    player: AccountInfo,
    amount: u64,
) -> TokenOp {
    TokenOp::TransferChecked {
        program: tp.key,
        from: from.info.key,
        mint: mint.info.key,
        to: to.info.key,
        authority: Authority::Wallet { key: player.key },
        amount,
        decimals: mint.data.decimals,
    }
}

/// The burn of `amount` from a token account of the player.
pub open spec fn player_burn(
    tp: AccountInfo,
    mint: Account<Mint>,
    from: Account<TokenAccount>,
    player: AccountInfo,
    amount: u64,
) -> TokenOp {
    TokenOp::Burn {
        program: tp.key,
        mint: mint.info.key,
        from: from.info.key,
        authority: Authority::Wallet { key: player.key },
        amount,
    }
}

/// Moves `amount` from a token account of the player, who has signed.
pub fn xfer_from_player(
    tp: &AccountInfo,
    mint: &Account<Mint>,
    from: &Account<TokenAccount>,
    to: &Account<TokenAccount>,
    player: &AccountInfo,
    amount: u64,
) -> (r: TokenOp)
    ensures
        r == player_transfer(*tp, *mint, *from, *to, *player, amount),
{
    TokenOp::TransferChecked {
        program: tp.key,
        from: from.info.key,
        mint: mint.info.key,
        to: to.info.key,
        authority: Authority::Wallet { key: player.key },
        amount,
        decimals: mint.data.decimals,
    }
}

/// Burns `amount` from a token account of the player, who has signed.
pub fn burn_from_player(
    tp: &AccountInfo,
    mint: &Account<Mint>,
    from: &Account<TokenAccount>,
    player: &AccountInfo,
    amount: u64,
) -> (r: TokenOp)
    ensures
        r == player_burn(*tp, *mint, *from, *player, amount),
{
    TokenOp::Burn {
        program: tp.key,
        mint: mint.info.key,
        from: from.info.key,
        authority: Authority::Wallet { key: player.key },
        amount,
    }
}

/// What the player pays to enter the arena: the burned part of the fee and the
/// treasury's part, each where there is one, then the stake into escrow.
pub open spec fn entry_ops(a: StartArena, buyin: u64) -> Seq<TokenOp> {
    let fee = crate::money::fee_split(a.config.data);
    crate::ops::if_positive(
        player_burn(a.token_program, a.mint, a.player_ata, a.player, fee.burn),
    ) + crate::ops::if_positive(
        player_transfer(
            a.token_program,
            a.mint,
            a.player_ata,
            a.treasury_ata,
            a.player,
            fee.treasury,
        ),
    ) + seq![
        player_transfer(a.token_program, a.mint, a.player_ata, a.escrow_ata, a.player, buyin),
    ]
}

/// What `start_session_arena` leaves of its context: an open session of the
/// player, which starts with the stake and holds no result.
pub open spec fn started(
    ctx: Context<StartArena, StartArenaBumps>,
    session_id: u64,
    buyin: u64,
    slot: u64,
) -> Context<StartArena, StartArenaBumps> {
    let data = Session {
        player: ctx.accounts.player.key,
        session_id,
        buyin,
        start_stack: buyin,
        final_stack: 0,
        choices_hash: crate::state::zero_hash(),
        status: STATUS_ACTIVE,
        ending: ENDING_NONE,
        created_slot: slot,
        bump: ctx.bumps.session,
        escrow_bump: ctx.bumps.escrow,
    };
    Context {
        accounts: StartArena {
            session: Account { data, ..ctx.accounts.session },
            ..ctx.accounts
        },
        ..ctx
    }
}

/// A holder pays the fee and the stake, which is kept in escrow for the session.
/// `slot` is the slot that the clock shows.
pub fn start_session_arena(
    ctx: &mut Context<StartArena, StartArenaBumps>,
    session_id: u64,
    buyin: u64,
    slot: u64,
) -> (r: Result<Vec<TokenOp>, GrindieError>)
    ensures
        match crate::money::entry_refusal(
            old(ctx).accounts.config.data,
            old(ctx).accounts.player_ata.data.amount,
            buyin,
        ) {
            Some(e) => r == Err::<Vec<TokenOp>, GrindieError>(e) && *final(ctx) == *old(ctx),
            None => {
                &&& r matches Ok(ops) && ops@ == entry_ops(old(ctx).accounts, buyin)
                &&& *final(ctx) == started(*old(ctx), session_id, buyin, slot)
            },
        },
{
    let fee: FeeSplit = enter(
        &ctx.accounts.config.data,
        ctx.accounts.player_ata.data.amount,
        buyin,
    )?;
    let mut ops: Vec<TokenOp> = Vec::new();
    if fee.burn > 0 {
        ops.push(
            burn_from_player(
                &ctx.accounts.token_program,
                &ctx.accounts.mint,
                &ctx.accounts.player_ata,
                &ctx.accounts.player,
                fee.burn,
            ),
        );
    }
    if fee.treasury > 0 {
        ops.push(
            xfer_from_player(
                &ctx.accounts.token_program,
                &ctx.accounts.mint,
                &ctx.accounts.player_ata,
                &ctx.accounts.treasury_ata,
                &ctx.accounts.player,
                fee.treasury,
            ),
        );
    }
    ops.push(
        xfer_from_player(
            &ctx.accounts.token_program,
            &ctx.accounts.mint,
            &ctx.accounts.player_ata,
            &ctx.accounts.escrow_ata,
            &ctx.accounts.player,
            buyin,
        ),
    );
    assert(ops@ =~= entry_ops(ctx.accounts, buyin));
    ctx.accounts.session.data = Session {
        player: ctx.accounts.player.key,
        session_id,
        buyin,
        start_stack: buyin,
        final_stack: 0,
        choices_hash: [0u8; 32],
        status: STATUS_ACTIVE,
        ending: ENDING_NONE,
        created_slot: slot,
        bump: ctx.bumps.session,
        escrow_bump: ctx.bumps.escrow,
    };
    Ok(ops)
}

/// A transfer out of the escrow of the session.
pub open spec fn escrow_transfer(
    a: FinalizeArena,
    to: Account<TokenAccount>,
    amount: u64,
) -> TokenOp {
    TokenOp::TransferChecked {
        program: a.token_program.key,
        from: a.escrow_ata.info.key,
        mint: a.mint.info.key,
        to: to.info.key,
        authority: escrow_authority(a.escrow.key, a.session.data),
        amount,
        decimals: a.mint.data.decimals,
    }
}

/// A burn out of the escrow of the session.
pub open spec fn escrow_burn(a: FinalizeArena, amount: u64) -> TokenOp {
    TokenOp::Burn {
        program: a.token_program.key,
        mint: a.mint.info.key,
        from: a.escrow_ata.info.key,
        authority: escrow_authority(a.escrow.key, a.session.data),
        amount,
    }
}

/// A transfer out of the vault to the player.
pub open spec fn vault_transfer(a: FinalizeArena, amount: u64) -> TokenOp {
    TokenOp::TransferChecked {
        program: a.token_program.key,
        from: a.vault_ata.info.key,
        mint: a.mint.info.key,
        to: a.player_ata.info.key,
        authority: vault_authority(a.vault.key, a.config.data),
        amount,
        decimals: a.mint.data.decimals,
    }
}

/// A burn out of the vault.
pub open spec fn vault_burn(a: FinalizeArena, amount: u64) -> TokenOp {
    TokenOp::Burn {
        program: a.token_program.key,
        mint: a.mint.info.key,
        from: a.vault_ata.info.key,
        authority: vault_authority(a.vault.key, a.config.data),
        amount,
    }
}

/// The instructions that carry a settlement out. The stake of a winner is always
/// returned; every other instruction is left out where its amount is zero.
pub open spec fn settlement_ops(a: FinalizeArena, x: Settlement) -> Seq<TokenOp> {
    let stake = escrow_transfer(a, a.player_ata, x.stake_to_player);
    (if x.won {
        seq![stake]
    } else {
        crate::ops::if_positive(stake)
    }) + crate::ops::if_positive(vault_transfer(a, x.win_to_player)) + crate::ops::if_positive(
        vault_burn(a, x.win_burn),
    ) + crate::ops::if_positive(
        escrow_transfer(a, a.vault_ata, x.loss_to_vault),
    ) + crate::ops::if_positive(escrow_burn(a, x.loss_burn)) + crate::ops::if_positive(
        vault_burn(a, x.rekt_burn),
    )
}

/// The amounts that settle the session of these accounts.
pub open spec fn arena_settlement(a: FinalizeArena, final_stack: u64, ending: u8) -> Settlement {
    crate::money::settlement(
        a.config.data,
        a.session.data.buyin,
        final_stack,
        ending,
        a.vault_ata.data.amount,
    )
}

/// What `finalize_arena` leaves of its context: the session holds the result and
/// is settled.
pub open spec fn finalized(
    ctx: Context<FinalizeArena, ()>,
    final_stack: u64,
    ending: u8,
    choices_hash: [u8; 32],
) -> Context<FinalizeArena, ()> {
    let data = Session {
        final_stack,
        ending,
        choices_hash,
        status: STATUS_FINALIZED,
        ..ctx.accounts.session.data
    };
    Context {
        accounts: FinalizeArena {
            session: Account { data, ..ctx.accounts.session },
            ..ctx.accounts
        },
        ..ctx
    }
}

/// Lists the instructions that carry a settlement out.
pub fn list_settlement_ops(a: &FinalizeArena, x: &Settlement) -> (r: Vec<TokenOp>)
    ensures
        r@ == settlement_ops(*a, *x),
{
    let program: Pubkey = a.token_program.key;
    let mint: Pubkey = a.mint.info.key;
    let decimals: u8 = a.mint.data.decimals;
    let player_ata: Pubkey = a.player_ata.info.key;
    let escrow_ata: Pubkey = a.escrow_ata.info.key;
    let vault_ata: Pubkey = a.vault_ata.info.key;
    let escrow: Authority = Authority::Program {
        key: a.escrow.key,
        pda: Pda::Escrow {
            player: a.session.data.player,
            session_id: a.session.data.session_id,
        },
        bump: a.session.data.escrow_bump,
    };
    let vault: Authority = Authority::Program {
        key: a.vault.key,
        pda: Pda::Vault,
        bump: a.config.data.vault_bump,
    };
    let mut ops: Vec<TokenOp> = Vec::new();
    if x.won || x.stake_to_player > 0 {
        ops.push(
            TokenOp::TransferChecked {
                program,
                from: escrow_ata,
                mint,
                to: player_ata,
                authority: escrow,
                amount: x.stake_to_player,
                decimals,
            },
        );
    }
    if x.win_to_player > 0 {
        ops.push(
            TokenOp::TransferChecked {
                program,
                from: vault_ata,
                mint,
                to: player_ata,
                authority: vault,
                amount: x.win_to_player,
                decimals,
            },
        );
    }
    if x.win_burn > 0 {
        ops.push(
            TokenOp::Burn { program, mint, from: vault_ata, authority: vault, amount: x.win_burn },
        );
    }
    if x.loss_to_vault > 0 {
        ops.push(
            TokenOp::TransferChecked {
                program,
                from: escrow_ata,
                mint,
                to: vault_ata,
                authority: escrow,
                amount: x.loss_to_vault,
                decimals,
            },
        );
    }
    if x.loss_burn > 0 {
        ops.push(
            TokenOp::Burn {
                program,
                mint,
                from: escrow_ata,
                authority: escrow,
                amount: x.loss_burn,
            },
        );
    }
    if x.rekt_burn > 0 {
        ops.push(
            TokenOp::Burn { program, mint, from: vault_ata, authority: vault, amount: x.rekt_burn },
        );
    }
    assert(ops@ =~= settlement_ops(*a, *x));
    ops
}

/// The backend signs for the result of a run, and the session is settled under
/// the configured bounds: a win is capped and split, a loss is split, and
/// nothing but the stake and the vault pays. The player need not sign.
pub fn finalize_arena(
    ctx: &mut Context<FinalizeArena, ()>,
    final_stack: u64,
    ending: u8,
    choices_hash: [u8; 32],
) -> (r: Result<ArenaOutcome, GrindieError>)
    ensures
        match crate::money::settle_refusal(
            old(ctx).accounts.config.data,
            old(ctx).accounts.session.data,
            final_stack,
            ending,
        ) {
            Some(e) => r == Err::<ArenaOutcome, GrindieError>(e) && *final(ctx) == *old(ctx),
            None => {
                &&& r matches Ok(outcome) && {
                    &&& outcome.ops@ == settlement_ops(
                        old(ctx).accounts,
                        arena_settlement(old(ctx).accounts, final_stack, ending),
                    )
                    &&& outcome.event == (SessionFinalized {
                        player: old(ctx).accounts.session.data.player,
                        session_id: old(ctx).accounts.session.data.session_id,
                        ending,
                        final_stack,
                    })
                }
                &&& *final(ctx) == finalized(*old(ctx), final_stack, ending, choices_hash)
            },
        },
{
    let x: Settlement = settle(
        &ctx.accounts.config.data,
        &ctx.accounts.session.data,
        final_stack,
        ending,
        ctx.accounts.vault_ata.data.amount,
    )?;
    let ops: Vec<TokenOp> = list_settlement_ops(&ctx.accounts, &x);
    ctx.accounts.session.data.final_stack = final_stack;
    ctx.accounts.session.data.ending = ending;
    ctx.accounts.session.data.choices_hash = choices_hash;
    ctx.accounts.session.data.status = STATUS_FINALIZED;
    let event: SessionFinalized = SessionFinalized {
        player: ctx.accounts.session.data.player,
        session_id: ctx.accounts.session.data.session_id,
        ending,
        final_stack,
    };
    Ok(ArenaOutcome { ops, event })
}

/// The longest name of an asset, in bytes.
pub const NAME_MAX: usize = 64;

/// The longest URI of an asset, in bytes.
pub const URI_MAX: usize = 200;

/// An ending asset can be minted with this ending, name and URI: the ending is
/// known, and both texts are short enough.
pub open spec fn mintable(ending: u8, name: Seq<char>, uri: Seq<char>) -> bool {
    &&& ending <= END_MAX
    &&& vstd::utf8::encode_utf8(name).len() <= NAME_MAX
    &&& vstd::utf8::encode_utf8(uri).len() <= URI_MAX
}

/// What `mint_ending_nft` leaves of its context: the receipt names the player,
/// the session and the ending.
pub open spec fn minted(
    ctx: Context<MintEndingNft, MintEndingNftBumps>,
    session_id: u64,
    ending: u8,
) -> Context<MintEndingNft, MintEndingNftBumps> {
    let data = NftReceipt {
        player: ctx.accounts.player.key,
        session_id,
        ending,
        bump: ctx.bumps.receipt,
    };
    Context {
        accounts: MintEndingNft {
            receipt: Account { data, ..ctx.accounts.receipt },
            ..ctx.accounts
        },
        ..ctx
    }
}

/// What the player pays for an ending asset: the mint fee, burned, where there
/// is one.
pub open spec fn minting_ops(a: MintEndingNft) -> Seq<TokenOp> {
    crate::ops::if_positive(
        player_burn(a.token_program, a.mint, a.player_ata, a.player, a.config.data.nft_mint_fee),
    )
}

/// Burns the mint fee and mints the soulbound asset of an ending: it belongs to
/// the player, the configuration may change it, and it is frozen for good, so
/// that it cannot be transferred. The receipt of the session is written, of
/// which there is one at most. The backend signs for the ending.
pub fn mint_ending_nft(
    ctx: &mut Context<MintEndingNft, MintEndingNftBumps>,
    session_id: u64,
    ending: u8,
    name: String,
    uri: String,
) -> (r: Result<MintOutcome, GrindieError>)
    ensures
        if !mintable(ending, name@, uri@) {
            r == Err::<MintOutcome, GrindieError>(GrindieError::BadEnding) && *final(ctx) == *old(
                ctx,
            )
        } else {
            &&& r matches Ok(outcome) && {
                &&& outcome.ops@ == minting_ops(old(ctx).accounts)
                &&& outcome.asset.program == old(ctx).accounts.mpl_core.key
                &&& outcome.asset.asset == old(ctx).accounts.asset.key
                &&& outcome.asset.payer == old(ctx).accounts.player.key
                &&& outcome.asset.owner == old(ctx).accounts.player.key
                &&& outcome.asset.update_authority == old(ctx).accounts.config.info.key
                &&& outcome.asset.name@ == name@
                &&& outcome.asset.uri@ == uri@
                &&& outcome.asset.frozen
                &&& outcome.event == (NftMinted {
                    player: old(ctx).accounts.player.key,
                    session_id,
                    ending,
                })
            }
            &&& *final(ctx) == minted(*old(ctx), session_id, ending)
        },
{
    if ending > END_MAX {
        return Err(GrindieError::BadEnding);
    }
    if !(name.as_str().as_bytes().len() <= NAME_MAX && uri.as_str().as_bytes().len() <= URI_MAX) {
        return Err(GrindieError::BadEnding);
    }
    let fee: u64 = ctx.accounts.config.data.nft_mint_fee;
    let mut ops: Vec<TokenOp> = Vec::new();
    if fee > 0 {
        ops.push(
            burn_from_player(
                &ctx.accounts.token_program,
                &ctx.accounts.mint,
                &ctx.accounts.player_ata,
                &ctx.accounts.player,
                fee,
            ),
        );
    }
    let asset: CreateAsset = CreateAsset {
        program: ctx.accounts.mpl_core.key,
        asset: ctx.accounts.asset.key,
        payer: ctx.accounts.player.key,
        owner: ctx.accounts.player.key,
        update_authority: ctx.accounts.config.info.key,
        name,
        uri,
        frozen: true,
    };
    ctx.accounts.receipt.data = NftReceipt {
        player: ctx.accounts.player.key,
        session_id,
        ending,
        bump: ctx.bumps.receipt,
    };
    let event: NftMinted = NftMinted { player: ctx.accounts.player.key, session_id, ending };
    Ok(MintOutcome { ops, asset, event })
}

} // verus!
