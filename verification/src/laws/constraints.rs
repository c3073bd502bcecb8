//! Laws of which accounts each instruction accepts, in terms of the accounts
//! themselves.
//!
//! Each law takes the result of one check. The accounts are accepted if and only if they
//! meet every demand, and of the demands that they do not meet the first one, in the
//! order in which the law lists them, is the one that is reported.
use crate::accounts::Context;
use crate::contexts::{
    AdminOnly, CloseConfig, CloseTreasuryAta, CloseVaultAta, FinalizeArena, Initialize,
    InitializeBumps, MintEndingNft, MintEndingNftBumps, SeedVault, StartArena, StartArenaBumps,
    WithdrawTreasury, WithdrawVault,
};
use crate::error::AccountError;
use crate::laws::addresses;
use crate::laws::addresses::the_canonical_address_is_found;
use crate::pubkey::Pubkey;
use vstd::prelude::*;

verus! {

/// The associated token program.
pub open spec fn associated_token_program() -> Seq<u8> {
    seq![
        140u8, 151, 37, 143, 78, 36, 137, 241, 187, 61, 16, 41, 20, 142, 13, 131, 11, 90, 19, 153,
        218, 255, 16, 132, 4, 142, 123, 216, 219, 233, 248, 89,
    ]
}

/// The accounts of `initialize`: the admin signs and is writable, and the new accounts
/// are writable and lie at the canonical addresses of the configuration and of the
/// token accounts of the vault and the treasury, which lie at theirs.
pub proof fn initialize_accepts_these_accounts(
    a: Initialize,
    program_id: Pubkey,
    r: Result<Context<Initialize, InitializeBumps>, AccountError>,
)
    requires
        call_ensures(Initialize::try_accounts, (a, program_id), r),
    ensures
        ({
            let id = program_id.bytes@;
            let ata = associated_token_program();
            let d0 = a.admin.is_signer;
            let d1 = addresses::derivable(addresses::word("config"@), id);
            let met1 = d0;
            let d2 = addresses::lies_at(addresses::word("config"@), id, a.config.info.key);
            let met2 = met1 && d1;
            let d3 = a.config.info.is_writable;
            let met3 = met2 && d2;
            let d4 = a.vault_ata.info.owner == a.token_program.key;
            let met4 = met3 && d3;
            let d5 = a.vault_ata.data.owner == a.vault.key;
            let met5 = met4 && d4;
            let d6 = addresses::derivable(
                seq![a.vault.key.bytes@, a.token_program.key.bytes@, a.mint.info.key.bytes@],
                ata,
            );
            let met6 = met5 && d5;
            let d7 = addresses::lies_at(
                seq![a.vault.key.bytes@, a.token_program.key.bytes@, a.mint.info.key.bytes@],
                ata,
                a.vault_ata.info.key,
            );
            let met7 = met6 && d6;
            let d8 = a.vault_ata.info.is_writable;
            let met8 = met7 && d7;
            let d9 = a.treasury_ata.info.owner == a.token_program.key;
            let met9 = met8 && d8;
            let d10 = a.treasury_ata.data.owner == a.treasury.key;
            let met10 = met9 && d9;
            let d11 = addresses::derivable(
                seq![a.treasury.key.bytes@, a.token_program.key.bytes@, a.mint.info.key.bytes@],
                ata,
            );
            let met11 = met10 && d10;
            let d12 = addresses::lies_at(
                seq![a.treasury.key.bytes@, a.token_program.key.bytes@, a.mint.info.key.bytes@],
                ata,
                a.treasury_ata.info.key,
            );
            let met12 = met11 && d11;
            let d13 = a.treasury_ata.info.is_writable;
            let met13 = met12 && d12;
            let d14 = addresses::derivable(addresses::word("vault"@), id);
            let met14 = met13 && d13;
            let d15 = addresses::lies_at(addresses::word("vault"@), id, a.vault.key);
            let met15 = met14 && d14;
            let d16 = addresses::derivable(addresses::word("treasury"@), id);
            let met16 = met15 && d15;
            let d17 = addresses::lies_at(addresses::word("treasury"@), id, a.treasury.key);
            let met17 = met16 && d16;
            let d18 = a.admin.is_writable;
            let met18 = met17 && d17;
            &&& met18 && d18 <==> r is Ok
            &&& !d0 ==> (r matches Err(AccountError::NotSigner))
            &&& met1 && !d1 ==> (r matches Err(AccountError::NoBump))
            &&& met2 && !d2 ==> (r matches Err(AccountError::Seeds))
            &&& met3 && !d3 ==> (r matches Err(AccountError::Mut))
            &&& met4 && !d4 ==> (r matches Err(AccountError::AssociatedTokenProgram))
            &&& met5 && !d5 ==> (r matches Err(AccountError::TokenOwner))
            &&& met6 && !d6 ==> (r matches Err(AccountError::NoBump))
            &&& met7 && !d7 ==> (r matches Err(AccountError::Associated))
            &&& met8 && !d8 ==> (r matches Err(AccountError::Mut))
            &&& met9 && !d9 ==> (r matches Err(AccountError::AssociatedTokenProgram))
            &&& met10 && !d10 ==> (r matches Err(AccountError::TokenOwner))
            &&& met11 && !d11 ==> (r matches Err(AccountError::NoBump))
            &&& met12 && !d12 ==> (r matches Err(AccountError::Associated))
            &&& met13 && !d13 ==> (r matches Err(AccountError::Mut))
            &&& met14 && !d14 ==> (r matches Err(AccountError::NoBump))
            &&& met15 && !d15 ==> (r matches Err(AccountError::Seeds))
            &&& met16 && !d16 ==> (r matches Err(AccountError::NoBump))
            &&& met17 && !d17 ==> (r matches Err(AccountError::Seeds))
            &&& met18 && !d18 ==> (r matches Err(AccountError::Mut))
            &&& r matches Ok(ctx) ==> {
                &&& ctx.program_id == program_id
                &&& ctx.accounts == a
                &&& addresses::canonical(
                    addresses::word("config"@),
                    ctx.bumps.config,
                    id,
                    a.config.info.key,
                )
                &&& addresses::canonical(
                    addresses::word("vault"@),
                    ctx.bumps.vault,
                    id,
                    a.vault.key,
                )
                &&& addresses::canonical(
                    addresses::word("treasury"@),
                    ctx.bumps.treasury,
                    id,
                    a.treasury.key,
                )
            }
        }),
{
    the_canonical_address_is_found(addresses::word("config"@), program_id.bytes@);
    the_canonical_address_is_found(addresses::word("vault"@), program_id.bytes@);
    the_canonical_address_is_found(addresses::word("treasury"@), program_id.bytes@);
    assert(crate::pda::associated_token_program_bytes() =~= associated_token_program());
    the_canonical_address_is_found(
        seq![a.vault.key.bytes@, a.token_program.key.bytes@, a.mint.info.key.bytes@],
        associated_token_program(),
    );
    the_canonical_address_is_found(
        seq![a.treasury.key.bytes@, a.token_program.key.bytes@, a.mint.info.key.bytes@],
        associated_token_program(),
    );
}

/// The accounts of a change of the configuration: the admin that it names signs, and it
/// lies at its address and is writable.
pub proof fn a_change_accepts_these_accounts(
    a: AdminOnly,
    program_id: Pubkey,
    r: Result<Context<AdminOnly, ()>, AccountError>,
)
    requires
        call_ensures(AdminOnly::try_accounts, (a, program_id), r),
    ensures
        ({
            let id = program_id.bytes@;
            let d0 = a.admin.is_signer;
            let d1 = addresses::creates(
                addresses::word("config"@),
                a.config.data.bump,
                id,
                a.config.info.key,
            );
            let met1 = d0;
            let d2 = a.config.info.is_writable;
            let met2 = met1 && d1;
            let d3 = a.config.data.admin == a.admin.key;
            let met3 = met2 && d2;
            &&& met3 && d3 <==> r is Ok
            &&& !d0 ==> (r matches Err(AccountError::NotSigner))
            &&& met1 && !d1 ==> (r matches Err(AccountError::Seeds))
            &&& met2 && !d2 ==> (r matches Err(AccountError::Mut))
            &&& met3 && !d3 ==> (r matches Err(AccountError::HasOne))
            &&& r matches Ok(ctx) ==> {
                &&& ctx.program_id == program_id
                &&& ctx.accounts == a
            }
        }),
{
}

/// The accounts of a seeding: the admin signs, both token accounts are writable and of
/// the configured mint, and the vault holds the one that is filled.
pub proof fn a_seeding_accepts_these_accounts(
    a: SeedVault,
    program_id: Pubkey,
    r: Result<Context<SeedVault, ()>, AccountError>,
)
    requires
        call_ensures(SeedVault::try_accounts, (a, program_id), r),
    ensures
        ({
            let id = program_id.bytes@;
            let d0 = a.admin.is_signer;
            let d1 = addresses::creates(
                addresses::word("config"@),
                a.config.data.bump,
                id,
                a.config.info.key,
            );
            let met1 = d0;
            let d2 = a.config.data.admin == a.admin.key;
            let met2 = met1 && d1;
            let d3 = a.source_ata.info.is_writable;
            let met3 = met2 && d2;
            let d4 = a.source_ata.data.mint == a.config.data.mint;
            let met4 = met3 && d3;
            let d5 = a.vault_ata.info.is_writable;
            let met5 = met4 && d4;
            let d6 = a.vault_ata.data.owner == a.vault.key;
            let met6 = met5 && d5;
            let d7 = a.vault_ata.data.mint == a.config.data.mint;
            let met7 = met6 && d6;
            let d8 = addresses::creates(
                addresses::word("vault"@),
                a.config.data.vault_bump,
                id,
                a.vault.key,
            );
            let met8 = met7 && d7;
            let d9 = a.mint.info.key == a.config.data.mint;
            let met9 = met8 && d8;
            &&& met9 && d9 <==> r is Ok
            &&& !d0 ==> (r matches Err(AccountError::NotSigner))
            &&& met1 && !d1 ==> (r matches Err(AccountError::Seeds))
            &&& met2 && !d2 ==> (r matches Err(AccountError::HasOne))
            &&& met3 && !d3 ==> (r matches Err(AccountError::Mut))
            &&& met4 && !d4 ==> (r matches Err(AccountError::TokenMint))
            &&& met5 && !d5 ==> (r matches Err(AccountError::Mut))
            &&& met6 && !d6 ==> (r matches Err(AccountError::TokenOwner))
            &&& met7 && !d7 ==> (r matches Err(AccountError::TokenMint))
            &&& met8 && !d8 ==> (r matches Err(AccountError::Seeds))
            &&& met9 && !d9 ==> (r matches Err(AccountError::Address))
            &&& r matches Ok(ctx) ==> {
                &&& ctx.program_id == program_id
                &&& ctx.accounts == a
            }
        }),
{
}

/// The accounts of a withdrawal from the treasury: the admin signs, both token accounts are
/// writable and of the configured mint, and the treasury holds the one that is taken from.
pub proof fn a_withdrawal_from_the_treasury_accepts_these_accounts(
    a: WithdrawTreasury,
    program_id: Pubkey,
    r: Result<Context<WithdrawTreasury, ()>, AccountError>,
)
    requires
        call_ensures(WithdrawTreasury::try_accounts, (a, program_id), r),
    ensures
        ({
            let id = program_id.bytes@;
            let d0 = a.admin.is_signer;
            let d1 = addresses::creates(
                addresses::word("config"@),
                a.config.data.bump,
                id,
                a.config.info.key,
            );
            let met1 = d0;
            let d2 = a.config.data.admin == a.admin.key;
            let met2 = met1 && d1;
            let d3 = a.treasury_ata.info.is_writable;
            let met3 = met2 && d2;
            let d4 = a.treasury_ata.data.owner == a.treasury.key;
            let met4 = met3 && d3;
            let d5 = a.treasury_ata.data.mint == a.config.data.mint;
            let met5 = met4 && d4;
            let d6 = a.dest_ata.info.is_writable;
            let met6 = met5 && d5;
            let d7 = a.dest_ata.data.mint == a.config.data.mint;
            let met7 = met6 && d6;
            let d8 = addresses::creates(
                addresses::word("treasury"@),
                a.config.data.treasury_bump,
                id,
                a.treasury.key,
            );
            let met8 = met7 && d7;
            let d9 = a.mint.info.key == a.config.data.mint;
            let met9 = met8 && d8;
            &&& met9 && d9 <==> r is Ok
            &&& !d0 ==> (r matches Err(AccountError::NotSigner))
            &&& met1 && !d1 ==> (r matches Err(AccountError::Seeds))
            &&& met2 && !d2 ==> (r matches Err(AccountError::HasOne))
            &&& met3 && !d3 ==> (r matches Err(AccountError::Mut))
            &&& met4 && !d4 ==> (r matches Err(AccountError::TokenOwner))
            &&& met5 && !d5 ==> (r matches Err(AccountError::TokenMint))
            &&& met6 && !d6 ==> (r matches Err(AccountError::Mut))
            &&& met7 && !d7 ==> (r matches Err(AccountError::TokenMint))
            &&& met8 && !d8 ==> (r matches Err(AccountError::Seeds))
            &&& met9 && !d9 ==> (r matches Err(AccountError::Address))
            &&& r matches Ok(ctx) ==> {
                &&& ctx.program_id == program_id
                &&& ctx.accounts == a
            }
        }),
{
}

/// The accounts of a withdrawal from the vault: the admin signs, both token accounts are
/// writable and of the configured mint, and the vault holds the one that is taken from.
pub proof fn a_withdrawal_from_the_vault_accepts_these_accounts(
    a: WithdrawVault,
    program_id: Pubkey,
    r: Result<Context<WithdrawVault, ()>, AccountError>,
)
    requires
        call_ensures(WithdrawVault::try_accounts, (a, program_id), r),
    ensures
        ({
            let id = program_id.bytes@;
            let d0 = a.admin.is_signer;
            let d1 = addresses::creates(
                addresses::word("config"@),
                a.config.data.bump,
                id,
                a.config.info.key,
            );
            let met1 = d0;
            let d2 = a.config.data.admin == a.admin.key;
            let met2 = met1 && d1;
            let d3 = a.vault_ata.info.is_writable;
            let met3 = met2 && d2;
            let d4 = a.vault_ata.data.owner == a.vault.key;
            let met4 = met3 && d3;
            let d5 = a.vault_ata.data.mint == a.config.data.mint;
            let met5 = met4 && d4;
            let d6 = a.dest_ata.info.is_writable;
            let met6 = met5 && d5;
            let d7 = a.dest_ata.data.mint == a.config.data.mint;
            let met7 = met6 && d6;
            let d8 = addresses::creates(
                addresses::word("vault"@),
                a.config.data.vault_bump,
                id,
                a.vault.key,
            );
            let met8 = met7 && d7;
            let d9 = a.mint.info.key == a.config.data.mint;
            let met9 = met8 && d8;
            &&& met9 && d9 <==> r is Ok
            &&& !d0 ==> (r matches Err(AccountError::NotSigner))
            &&& met1 && !d1 ==> (r matches Err(AccountError::Seeds))
            &&& met2 && !d2 ==> (r matches Err(AccountError::HasOne))
            &&& met3 && !d3 ==> (r matches Err(AccountError::Mut))
            &&& met4 && !d4 ==> (r matches Err(AccountError::TokenOwner))
            &&& met5 && !d5 ==> (r matches Err(AccountError::TokenMint))
            &&& met6 && !d6 ==> (r matches Err(AccountError::Mut))
            &&& met7 && !d7 ==> (r matches Err(AccountError::TokenMint))
            &&& met8 && !d8 ==> (r matches Err(AccountError::Seeds))
            &&& met9 && !d9 ==> (r matches Err(AccountError::Address))
            &&& r matches Ok(ctx) ==> {
                &&& ctx.program_id == program_id
                &&& ctx.accounts == a
            }
        }),
{
}

/// The accounts of a closure of the treasury token account: the admin signs and is writable,
/// and the token account is writable, of the configured mint and held by the treasury.
pub proof fn a_closure_of_the_treasury_accepts_these_accounts(
    a: CloseTreasuryAta,
    program_id: Pubkey,
    r: Result<Context<CloseTreasuryAta, ()>, AccountError>,
)
    requires
        call_ensures(CloseTreasuryAta::try_accounts, (a, program_id), r),
    ensures
        ({
            let id = program_id.bytes@;
            let d0 = a.admin.is_signer;
            let d1 = addresses::creates(
                addresses::word("config"@),
                a.config.data.bump,
                id,
                a.config.info.key,
            );
            let met1 = d0;
            let d2 = a.config.data.admin == a.admin.key;
            let met2 = met1 && d1;
            let d3 = a.treasury_ata.info.is_writable;
            let met3 = met2 && d2;
            let d4 = a.treasury_ata.data.owner == a.treasury.key;
            let met4 = met3 && d3;
            let d5 = a.treasury_ata.data.mint == a.config.data.mint;
            let met5 = met4 && d4;
            let d6 = addresses::creates(
                addresses::word("treasury"@),
                a.config.data.treasury_bump,
                id,
                a.treasury.key,
            );
            let met6 = met5 && d5;
            let d7 = a.admin.is_writable;
            let met7 = met6 && d6;
            &&& met7 && d7 <==> r is Ok
            &&& !d0 ==> (r matches Err(AccountError::NotSigner))
            &&& met1 && !d1 ==> (r matches Err(AccountError::Seeds))
            &&& met2 && !d2 ==> (r matches Err(AccountError::HasOne))
            &&& met3 && !d3 ==> (r matches Err(AccountError::Mut))
            &&& met4 && !d4 ==> (r matches Err(AccountError::TokenOwner))
            &&& met5 && !d5 ==> (r matches Err(AccountError::TokenMint))
            &&& met6 && !d6 ==> (r matches Err(AccountError::Seeds))
            &&& met7 && !d7 ==> (r matches Err(AccountError::Mut))
            &&& r matches Ok(ctx) ==> {
                &&& ctx.program_id == program_id
                &&& ctx.accounts == a
            }
        }),
{
}

/// The accounts of a closure of the vault token account: the admin signs and is writable,
/// and the token account is writable, of the configured mint and held by the vault.
pub proof fn a_closure_of_the_vault_accepts_these_accounts(
    a: CloseVaultAta,
    program_id: Pubkey,
    r: Result<Context<CloseVaultAta, ()>, AccountError>,
)
    requires
        call_ensures(CloseVaultAta::try_accounts, (a, program_id), r),
    ensures
        ({
            let id = program_id.bytes@;
            let d0 = a.admin.is_signer;
            let d1 = addresses::creates(
                addresses::word("config"@),
                a.config.data.bump,
                id,
                a.config.info.key,
            );
            let met1 = d0;
            let d2 = a.config.data.admin == a.admin.key;
            let met2 = met1 && d1;
            let d3 = a.vault_ata.info.is_writable;
            let met3 = met2 && d2;
            let d4 = a.vault_ata.data.owner == a.vault.key;
            let met4 = met3 && d3;
            let d5 = a.vault_ata.data.mint == a.config.data.mint;
            let met5 = met4 && d4;
            let d6 = addresses::creates(
                addresses::word("vault"@),
                a.config.data.vault_bump,
                id,
                a.vault.key,
            );
            let met6 = met5 && d5;
            let d7 = a.admin.is_writable;
            let met7 = met6 && d6;
            &&& met7 && d7 <==> r is Ok
            &&& !d0 ==> (r matches Err(AccountError::NotSigner))
            &&& met1 && !d1 ==> (r matches Err(AccountError::Seeds))
            &&& met2 && !d2 ==> (r matches Err(AccountError::HasOne))
            &&& met3 && !d3 ==> (r matches Err(AccountError::Mut))
            &&& met4 && !d4 ==> (r matches Err(AccountError::TokenOwner))
            &&& met5 && !d5 ==> (r matches Err(AccountError::TokenMint))
            &&& met6 && !d6 ==> (r matches Err(AccountError::Seeds))
            &&& met7 && !d7 ==> (r matches Err(AccountError::Mut))
            &&& r matches Ok(ctx) ==> {
                &&& ctx.program_id == program_id
                &&& ctx.accounts == a
            }
        }),
{
}

/// The accounts of a closure of the configuration: the admin signs, is writable and is
/// not the configuration itself, which is writable.
pub proof fn a_closure_of_the_config_accepts_these_accounts(
    a: CloseConfig,
    program_id: Pubkey,
    r: Result<Context<CloseConfig, ()>, AccountError>,
)
    requires
        call_ensures(CloseConfig::try_accounts, (a, program_id), r),
    ensures
        ({
            let id = program_id.bytes@;
            let d0 = a.admin.is_signer;
            let d1 = addresses::creates(
                addresses::word("config"@),
                a.config.data.bump,
                id,
                a.config.info.key,
            );
            let met1 = d0;
            let d2 = a.config.info.is_writable;
            let met2 = met1 && d1;
            let d3 = a.config.data.admin == a.admin.key;
            let met3 = met2 && d2;
            let d4 = a.config.info.key != a.admin.key;
            let met4 = met3 && d3;
            let d5 = a.admin.is_writable;
            let met5 = met4 && d4;
            &&& met5 && d5 <==> r is Ok
            &&& !d0 ==> (r matches Err(AccountError::NotSigner))
            &&& met1 && !d1 ==> (r matches Err(AccountError::Seeds))
            &&& met2 && !d2 ==> (r matches Err(AccountError::Mut))
            &&& met3 && !d3 ==> (r matches Err(AccountError::HasOne))
            &&& met4 && !d4 ==> (r matches Err(AccountError::Close))
            &&& met5 && !d5 ==> (r matches Err(AccountError::Mut))
            &&& r matches Ok(ctx) ==> {
                &&& ctx.program_id == program_id
                &&& ctx.accounts == a
            }
        }),
{
}

/// The accounts of an entry: the player signs, the new accounts lie at the canonical
/// addresses of the session and of the token account of its escrow, and the other token
/// accounts are of the configured mint and held by the player and the treasury.
pub proof fn an_entry_accepts_these_accounts(
    a: StartArena,
    program_id: Pubkey,
    session_id: u64,
    r: Result<Context<StartArena, StartArenaBumps>, AccountError>,
)
    requires
        call_ensures(StartArena::try_accounts, (a, program_id, session_id), r),
    ensures
        ({
            let id = program_id.bytes@;
            let ata = associated_token_program();
            let d0 = a.player.is_signer;
            let d1 = addresses::derivable(addresses::own("session"@, a.player.key, session_id), id);
            let met1 = d0;
            let d2 = addresses::lies_at(
                addresses::own("session"@, a.player.key, session_id),
                id,
                a.session.info.key,
            );
            let met2 = met1 && d1;
            let d3 = a.session.info.is_writable;
            let met3 = met2 && d2;
            let d4 = a.escrow_ata.info.owner == a.token_program.key;
            let met4 = met3 && d3;
            let d5 = a.escrow_ata.data.owner == a.escrow.key;
            let met5 = met4 && d4;
            let d6 = addresses::derivable(
                seq![a.escrow.key.bytes@, a.token_program.key.bytes@, a.mint.info.key.bytes@],
                ata,
            );
            let met6 = met5 && d5;
            let d7 = addresses::lies_at(
                seq![a.escrow.key.bytes@, a.token_program.key.bytes@, a.mint.info.key.bytes@],
                ata,
                a.escrow_ata.info.key,
            );
            let met7 = met6 && d6;
            let d8 = a.escrow_ata.info.is_writable;
            let met8 = met7 && d7;
            let d9 = addresses::creates(
                addresses::word("config"@),
                a.config.data.bump,
                id,
                a.config.info.key,
            );
            let met9 = met8 && d8;
            let d10 = a.player_ata.info.is_writable;
            let met10 = met9 && d9;
            let d11 = a.player_ata.data.owner == a.player.key;
            let met11 = met10 && d10;
            let d12 = a.player_ata.data.mint == a.config.data.mint;
            let met12 = met11 && d11;
            let d13 = a.treasury_ata.info.is_writable;
            let met13 = met12 && d12;
            let d14 = a.treasury_ata.data.owner == a.treasury.key;
            let met14 = met13 && d13;
            let d15 = a.treasury_ata.data.mint == a.config.data.mint;
            let met15 = met14 && d14;
            let d16 = addresses::creates(
                addresses::word("treasury"@),
                a.config.data.treasury_bump,
                id,
                a.treasury.key,
            );
            let met16 = met15 && d15;
            let d17 = addresses::derivable(addresses::own("escrow"@, a.player.key, session_id), id);
            let met17 = met16 && d16;
            let d18 = addresses::lies_at(
                addresses::own("escrow"@, a.player.key, session_id),
                id,
                a.escrow.key,
            );
            let met18 = met17 && d17;
            let d19 = a.mint.info.is_writable;
            let met19 = met18 && d18;
            let d20 = a.mint.info.key == a.config.data.mint;
            let met20 = met19 && d19;
            let d21 = a.player.is_writable;
            let met21 = met20 && d20;
            &&& met21 && d21 <==> r is Ok
            &&& !d0 ==> (r matches Err(AccountError::NotSigner))
            &&& met1 && !d1 ==> (r matches Err(AccountError::NoBump))
            &&& met2 && !d2 ==> (r matches Err(AccountError::Seeds))
            &&& met3 && !d3 ==> (r matches Err(AccountError::Mut))
            &&& met4 && !d4 ==> (r matches Err(AccountError::AssociatedTokenProgram))
            &&& met5 && !d5 ==> (r matches Err(AccountError::TokenOwner))
            &&& met6 && !d6 ==> (r matches Err(AccountError::NoBump))
            &&& met7 && !d7 ==> (r matches Err(AccountError::Associated))
            &&& met8 && !d8 ==> (r matches Err(AccountError::Mut))
            &&& met9 && !d9 ==> (r matches Err(AccountError::Seeds))
            &&& met10 && !d10 ==> (r matches Err(AccountError::Mut))
            &&& met11 && !d11 ==> (r matches Err(AccountError::TokenOwner))
            &&& met12 && !d12 ==> (r matches Err(AccountError::TokenMint))
            &&& met13 && !d13 ==> (r matches Err(AccountError::Mut))
            &&& met14 && !d14 ==> (r matches Err(AccountError::TokenOwner))
            &&& met15 && !d15 ==> (r matches Err(AccountError::TokenMint))
            &&& met16 && !d16 ==> (r matches Err(AccountError::Seeds))
            &&& met17 && !d17 ==> (r matches Err(AccountError::NoBump))
            &&& met18 && !d18 ==> (r matches Err(AccountError::Seeds))
            &&& met19 && !d19 ==> (r matches Err(AccountError::Mut))
            &&& met20 && !d20 ==> (r matches Err(AccountError::Address))
            &&& met21 && !d21 ==> (r matches Err(AccountError::Mut))
            &&& r matches Ok(ctx) ==> {
                &&& ctx.program_id == program_id
                &&& ctx.accounts == a
                &&& addresses::canonical(
                    addresses::own("session"@, a.player.key, session_id),
                    ctx.bumps.session,
                    id,
                    a.session.info.key,
                )
                &&& addresses::canonical(
                    addresses::own("escrow"@, a.player.key, session_id),
                    ctx.bumps.escrow,
                    id,
                    a.escrow.key,
                )
            }
        }),
{
    the_canonical_address_is_found(
        addresses::own("session"@, a.player.key, session_id),
        program_id.bytes@,
    );
    the_canonical_address_is_found(
        addresses::own("escrow"@, a.player.key, session_id),
        program_id.bytes@,
    );
    assert(crate::pda::associated_token_program_bytes() =~= associated_token_program());
    the_canonical_address_is_found(
        seq![a.escrow.key.bytes@, a.token_program.key.bytes@, a.mint.info.key.bytes@],
        associated_token_program(),
    );
}

/// The accounts of a settlement: the configured backend signer signs, the session and
/// its escrow are those of the player that it names, and the token accounts are of the
/// configured mint and held by the player, the escrow and the vault.
pub proof fn a_settlement_accepts_these_accounts(
    a: FinalizeArena,
    program_id: Pubkey,
    r: Result<Context<FinalizeArena, ()>, AccountError>,
)
    requires
        call_ensures(FinalizeArena::try_accounts, (a, program_id), r),
    ensures
        ({
            let id = program_id.bytes@;
            let d0 = a.outcome_authority.is_signer;
            let d1 = addresses::creates(
                addresses::word("config"@),
                a.config.data.bump,
                id,
                a.config.info.key,
            );
            let met1 = d0;
            let d2 = addresses::creates(
                addresses::own("session"@, a.player.key, a.session.data.session_id),
                a.session.data.bump,
                id,
                a.session.info.key,
            );
            let met2 = met1 && d1;
            let d3 = a.session.info.is_writable;
            let met3 = met2 && d2;
            let d4 = a.session.data.player == a.player.key;
            let met4 = met3 && d3;
            let d5 = a.player_ata.info.is_writable;
            let met5 = met4 && d4;
            let d6 = a.player_ata.data.owner == a.player.key;
            let met6 = met5 && d5;
            let d7 = a.player_ata.data.mint == a.config.data.mint;
            let met7 = met6 && d6;
            let d8 = addresses::creates(
                addresses::own("escrow"@, a.player.key, a.session.data.session_id),
                a.session.data.escrow_bump,
                id,
                a.escrow.key,
            );
            let met8 = met7 && d7;
            let d9 = a.escrow_ata.info.is_writable;
            let met9 = met8 && d8;
            let d10 = a.escrow_ata.data.owner == a.escrow.key;
            let met10 = met9 && d9;
            let d11 = a.escrow_ata.data.mint == a.config.data.mint;
            let met11 = met10 && d10;
            let d12 = addresses::creates(
                addresses::word("vault"@),
                a.config.data.vault_bump,
                id,
                a.vault.key,
            );
            let met12 = met11 && d11;
            let d13 = a.vault_ata.info.is_writable;
            let met13 = met12 && d12;
            let d14 = a.vault_ata.data.owner == a.vault.key;
            let met14 = met13 && d13;
            let d15 = a.vault_ata.data.mint == a.config.data.mint;
            let met15 = met14 && d14;
            let d16 = a.mint.info.is_writable;
            let met16 = met15 && d15;
            let d17 = a.mint.info.key == a.config.data.mint;
            let met17 = met16 && d16;
            let d18 = a.outcome_authority.key == a.config.data.outcome_authority;
            let met18 = met17 && d17;
            &&& met18 && d18 <==> r is Ok
            &&& !d0 ==> (r matches Err(AccountError::NotSigner))
            &&& met1 && !d1 ==> (r matches Err(AccountError::Seeds))
            &&& met2 && !d2 ==> (r matches Err(AccountError::Seeds))
            &&& met3 && !d3 ==> (r matches Err(AccountError::Mut))
            &&& met4 && !d4 ==> (r matches Err(AccountError::HasOne))
            &&& met5 && !d5 ==> (r matches Err(AccountError::Mut))
            &&& met6 && !d6 ==> (r matches Err(AccountError::TokenOwner))
            &&& met7 && !d7 ==> (r matches Err(AccountError::TokenMint))
            &&& met8 && !d8 ==> (r matches Err(AccountError::Seeds))
            &&& met9 && !d9 ==> (r matches Err(AccountError::Mut))
            &&& met10 && !d10 ==> (r matches Err(AccountError::TokenOwner))
            &&& met11 && !d11 ==> (r matches Err(AccountError::TokenMint))
            &&& met12 && !d12 ==> (r matches Err(AccountError::Seeds))
            &&& met13 && !d13 ==> (r matches Err(AccountError::Mut))
            &&& met14 && !d14 ==> (r matches Err(AccountError::TokenOwner))
            &&& met15 && !d15 ==> (r matches Err(AccountError::TokenMint))
            &&& met16 && !d16 ==> (r matches Err(AccountError::Mut))
            &&& met17 && !d17 ==> (r matches Err(AccountError::Address))
            &&& met18 && !d18 ==> (r matches Err(AccountError::Address))
            &&& r matches Ok(ctx) ==> {
                &&& ctx.program_id == program_id
                &&& ctx.accounts == a
            }
        }),
{
}

/// The accounts of a minting: the player, the configured backend signer and the new
/// asset sign, the receipt lies at the canonical address of its session, the token
/// account is of the configured mint and held by the player, and the asset program is
/// the one that is known.
pub proof fn a_minting_accepts_these_accounts(
    a: MintEndingNft,
    program_id: Pubkey,
    session_id: u64,
    r: Result<Context<MintEndingNft, MintEndingNftBumps>, AccountError>,
)
    requires
        call_ensures(MintEndingNft::try_accounts, (a, program_id, session_id), r),
    ensures
        ({
            let id = program_id.bytes@;
            let d0 = a.player.is_signer;
            let d1 = a.outcome_authority.is_signer;
            let met1 = d0;
            let d2 = a.asset.is_signer;
            let met2 = met1 && d1;
            let d3 = addresses::derivable(addresses::own("nft"@, a.player.key, session_id), id);
            let met3 = met2 && d2;
            let d4 = addresses::lies_at(
                addresses::own("nft"@, a.player.key, session_id),
                id,
                a.receipt.info.key,
            );
            let met4 = met3 && d3;
            let d5 = a.receipt.info.is_writable;
            let met5 = met4 && d4;
            let d6 = addresses::creates(
                addresses::word("config"@),
                a.config.data.bump,
                id,
                a.config.info.key,
            );
            let met6 = met5 && d5;
            let d7 = a.player_ata.info.is_writable;
            let met7 = met6 && d6;
            let d8 = a.player_ata.data.owner == a.player.key;
            let met8 = met7 && d7;
            let d9 = a.player_ata.data.mint == a.config.data.mint;
            let met9 = met8 && d8;
            let d10 = a.mint.info.is_writable;
            let met10 = met9 && d9;
            let d11 = a.mint.info.key == a.config.data.mint;
            let met11 = met10 && d10;
            let d12 = a.player.is_writable;
            let met12 = met11 && d11;
            let d13 = a.outcome_authority.key == a.config.data.outcome_authority;
            let met13 = met12 && d12;
            let d14 = a.asset.is_writable;
            let met14 = met13 && d13;
            let d15 = a.mpl_core.key.bytes@ == seq![
                175u8, 84, 171, 16, 189, 151, 165, 66, 160, 158, 247, 179, 152, 137, 221, 12, 211,
                148, 164, 204, 233, 223, 166, 205, 201, 126, 190, 45, 35, 91, 167, 72,
            ];
            let met15 = met14 && d14;
            &&& met15 && d15 <==> r is Ok
            &&& !d0 ==> (r matches Err(AccountError::NotSigner))
            &&& met1 && !d1 ==> (r matches Err(AccountError::NotSigner))
            &&& met2 && !d2 ==> (r matches Err(AccountError::NotSigner))
            &&& met3 && !d3 ==> (r matches Err(AccountError::NoBump))
            &&& met4 && !d4 ==> (r matches Err(AccountError::Seeds))
            &&& met5 && !d5 ==> (r matches Err(AccountError::Mut))
            &&& met6 && !d6 ==> (r matches Err(AccountError::Seeds))
            &&& met7 && !d7 ==> (r matches Err(AccountError::Mut))
            &&& met8 && !d8 ==> (r matches Err(AccountError::TokenOwner))
            &&& met9 && !d9 ==> (r matches Err(AccountError::TokenMint))
            &&& met10 && !d10 ==> (r matches Err(AccountError::Mut))
            &&& met11 && !d11 ==> (r matches Err(AccountError::Address))
            &&& met12 && !d12 ==> (r matches Err(AccountError::Mut))
            &&& met13 && !d13 ==> (r matches Err(AccountError::Address))
            &&& met14 && !d14 ==> (r matches Err(AccountError::Mut))
            &&& met15 && !d15 ==> (r matches Err(AccountError::Address))
            &&& r matches Ok(ctx) ==> {
                &&& ctx.program_id == program_id
                &&& ctx.accounts == a
                &&& addresses::canonical(
                    addresses::own("nft"@, a.player.key, session_id),
                    ctx.bumps.receipt,
                    id,
                    a.receipt.info.key,
                )
            }
        }),
{
    the_canonical_address_is_found(
        addresses::own("nft"@, a.player.key, session_id),
        program_id.bytes@,
    );
    assert(crate::pda::mpl_core_program_bytes() =~= seq![
        175u8, 84, 171, 16, 189, 151, 165, 66, 160, 158, 247, 179, 152, 137, 221, 12, 211, 148,
        164, 204, 233, 223, 166, 205, 201, 126, 190, 45, 35, 91, 167, 72,
    ]);
}

} // verus!
