//! Laws of who may do what, and of the accounts that the program controls.
use crate::accounts::{Account, AccountInfo, TokenAccount};
use crate::contexts::{
    AdminOnly, CloseConfig, CloseTreasuryAta, CloseVaultAta, FinalizeArena, Initialize,
    MintEndingNft, SeedVault, StartArena, WithdrawTreasury, WithdrawVault,
};
use crate::money::Settlement;
use crate::ops::{Authority, TokenOp};
use crate::pda::Pda;
use crate::pubkey::Pubkey;
use crate::state::{Config, ConfigParams};
use vstd::prelude::*;

verus! {

/// No two accounts that the program controls have the same seeds.
pub proof fn seeds_name_one_account(a: Pda, b: Pda)
    requires
        a.seeds() == b.seeds(),
    ensures
        a == b,
{
    assert(a.seeds()[0] == b.seeds()[0]);
    vstd::utf8::encode_utf8_decode_utf8(a.tag());
    vstd::utf8::encode_utf8_decode_utf8(b.tag());
    assert(a.tag() == b.tag());
    reveal_strlit("config");
    reveal_strlit("vault");
    reveal_strlit("treasury");
    reveal_strlit("session");
    reveal_strlit("escrow");
    reveal_strlit("nft");
    assert("config"@[0] != "escrow"@[0]);
    vstd::bytes::lemma_auto_spec_u64_to_from_le_bytes();
    assert(a.seeds().len() == 3 ==> a.seeds()[1] == b.seeds()[1]);
    assert(a.seeds().len() == 3 ==> a.seeds()[2] == b.seeds()[2]);
    match (a, b) {
        (Pda::Session { player: p, session_id: i }, Pda::Session { player: q, session_id: j })
        | (Pda::Escrow { player: p, session_id: i }, Pda::Escrow { player: q, session_id: j })
        | (
            Pda::NftReceipt { player: p, session_id: i },
            Pda::NftReceipt { player: q, session_id: j },
        ) => {
            lemma_keys_by_bytes(p, q);
        },
        _ => {},
    }
}

/// A found address is canonical: its bump creates it, and no larger bump creates
/// any address of the same seeds.
pub proof fn found_bumps_are_canonical(pda: Pda, program_id: Pubkey)
    ensures
        pda.found(program_id) matches Some((key, bump)) ==> {
            &&& pda.created(bump, program_id) == Some(key)
            &&& forall|b: u8| bump < b ==> #[trigger] pda.created(b, program_id) is None
        },
        pda.found(program_id) is None ==> forall|b: u8|
            1 <= b ==> #[trigger] pda.created(b, program_id) is None,
{
    crate::pda::lemma_first_created(pda.seeds(), program_id.bytes@, 255);
}

/// Keys of the same bytes are the same key.
proof fn lemma_keys_by_bytes(p: Pubkey, q: Pubkey)
    requires
        p.bytes@ == q.bytes@,
    ensures
        p == q,
{
    assert forall|i: int| 0 <= i < 32 implies p.bytes[i] == q.bytes[i] by {
        assert(p.bytes@[i] == q.bytes@[i]);
    }
    assert(p.bytes =~= q.bytes);
}

/// The configuration of these accounts is the one of the program, and its admin
/// signed.
pub open spec fn signed_by_admin(
    config: Account<Config>,
    admin: AccountInfo,
    program_id: Pubkey,
) -> bool {
    &&& admin.is_signer
    &&& admin.key == config.data.admin
    &&& Pda::Config.created(config.data.bump, program_id) == Some(config.info.key)
}

/// Only the admin changes the configuration, moves tokens into or out of the
/// vault and the treasury at will, and tears the program down: accounts that any
/// of these instructions accepts are signed by the admin of the configuration.
pub proof fn only_the_admin_administers(
    program_id: Pubkey,
    change: AdminOnly,
    seed: SeedVault,
    fees: WithdrawTreasury,
    prizes: WithdrawVault,
    close_fees: CloseTreasuryAta,
    close_prizes: CloseVaultAta,
    close: CloseConfig,
)
    ensures
        change.refused(program_id) is None ==> signed_by_admin(
            change.config,
            change.admin,
            program_id,
        ),
        seed.refused(program_id) is None ==> signed_by_admin(seed.config, seed.admin, program_id),
        fees.refused(program_id) is None ==> signed_by_admin(fees.config, fees.admin, program_id),
        prizes.refused(program_id) is None ==> signed_by_admin(
            prizes.config,
            prizes.admin,
            program_id,
        ),
        close_fees.refused(program_id) is None ==> signed_by_admin(
            close_fees.config,
            close_fees.admin,
            program_id,
        ),
        close_prizes.refused(program_id) is None ==> signed_by_admin(
            close_prizes.config,
            close_prizes.admin,
            program_id,
        ),
        close.refused(program_id) is None ==> signed_by_admin(
            close.config,
            close.admin,
            program_id,
        ),
{
}

/// Results and endings are attested: accounts that a settlement or a minting
/// accepts are signed by the backend signer of the configuration.
pub proof fn the_backend_attests(
    program_id: Pubkey,
    settling: FinalizeArena,
    minting: MintEndingNft,
    session_id: u64,
)
    ensures
        settling.refused(program_id) is None ==> {
            &&& settling.outcome_authority.is_signer
            &&& settling.outcome_authority.key == settling.config.data.outcome_authority
        },
        minting.refused(program_id, session_id) is None ==> {
            &&& minting.outcome_authority.is_signer
            &&& minting.outcome_authority.key == minting.config.data.outcome_authority
        },
{
}

/// A player is charged only with their signature: accounts that an entry or a
/// minting accepts are signed by the player, who holds the charged token
/// account.
pub proof fn players_sign_for_what_they_pay(
    program_id: Pubkey,
    entering: StartArena,
    minting: MintEndingNft,
    session_id: u64,
    buyin: u64,
)
    ensures
        entering.refused(program_id, session_id) is None ==> {
            &&& entering.player.is_signer
            &&& entering.player_ata.held_by(entering.player.key, entering.config.data.mint)
            &&& forall|i: int|
                0 <= i < crate::grindie::entry_ops(entering, buyin).len() ==> {
                    let op = #[trigger] crate::grindie::entry_ops(entering, buyin)[i];
                    &&& op.source() == entering.player_ata.info.key
                    &&& op.authorised_by() == (Authority::Wallet { key: entering.player.key })
                }
        },
        minting.refused(program_id, session_id) is None ==> {
            &&& minting.player.is_signer
            &&& minting.player_ata.held_by(minting.player.key, minting.config.data.mint)
        },
{
}

/// A settlement does not need the player: whether they sign changes neither what
/// is accepted nor what is paid, so that a player who lost cannot strand the
/// stake.
pub proof fn settling_does_not_need_the_player(
    program_id: Pubkey,
    a: FinalizeArena,
    signs: bool,
    x: Settlement,
)
    ensures
        ({
            let b = FinalizeArena { player: AccountInfo { is_signer: signs, ..a.player }, ..a };
            &&& b.refused(program_id) == a.refused(program_id)
            &&& crate::grindie::settlement_ops(b, x) == crate::grindie::settlement_ops(a, x)
        }),
{
}

/// The program can sign for `authority`: its seeds create its address.
pub open spec fn program_signs(authority: Authority, program_id: Pubkey) -> bool {
    match authority {
        Authority::Program { key, pda, bump } => pda.created(bump, program_id) == Some(key),
        Authority::Wallet { .. } => false,
    }
}

/// A settlement spends only from the escrow of its session and from the vault,
/// each held by an account that the program signs for, and pays only the player
/// of the session and the vault.
pub proof fn settlements_spend_from_custody(program_id: Pubkey, a: FinalizeArena, x: Settlement)
    requires
        a.refused(program_id) is None,
    ensures
        a.player_ata.data.owner == a.session.data.player,
        a.escrow_ata.held_by(a.escrow.key, a.mint.info.key),
        a.vault_ata.held_by(a.vault.key, a.mint.info.key),
        forall|i: int|
            0 <= i < crate::grindie::settlement_ops(a, x).len() ==> {
                let op = #[trigger] crate::grindie::settlement_ops(a, x)[i];
                &&& program_signs(op.authorised_by(), program_id)
                &&& {
                    ||| op.source() == a.escrow_ata.info.key && op.authorised_by().account()
                        == a.escrow.key
                    ||| op.source() == a.vault_ata.info.key && op.authorised_by().account()
                        == a.vault.key
                }
                &&& op matches TokenOp::TransferChecked { to, mint, .. } ==> {
                    &&& mint == a.config.data.mint
                    &&& to == a.player_ata.info.key || to == a.vault_ata.info.key
                }
            },
{
}

/// Withdrawals and closures of the vault and the treasury are signed with the
/// seeds of the account that holds the tokens, and a closure sends the rent to
/// the admin.
pub proof fn teardown_is_signed_by_the_holder(
    program_id: Pubkey,
    fees: WithdrawTreasury,
    prizes: WithdrawVault,
    amount: u64,
    close_fees: CloseTreasuryAta,
    close_prizes: CloseVaultAta,
)
    ensures
        fees.refused(program_id) is None ==> {
            let op = crate::grindie::treasury_withdrawal(fees, amount);
            &&& program_signs(op.authorised_by(), program_id)
            &&& fees.treasury_ata.held_by(op.authorised_by().account(), fees.mint.info.key)
        },
        prizes.refused(program_id) is None ==> {
            let op = crate::grindie::vault_withdrawal(prizes, amount);
            &&& program_signs(op.authorised_by(), program_id)
            &&& prizes.vault_ata.held_by(op.authorised_by().account(), prizes.mint.info.key)
        },
        close_fees.refused(program_id) is None ==> {
            let op = crate::grindie::treasury_closure(close_fees);
            &&& program_signs(op.authorised_by(), program_id)
            &&& close_fees.treasury_ata.data.owner == op.authorised_by().account()
            &&& op->destination == close_fees.config.data.admin
        },
        close_prizes.refused(program_id) is None ==> {
            let op = crate::grindie::vault_closure(close_prizes);
            &&& program_signs(op.authorised_by(), program_id)
            &&& close_prizes.vault_ata.data.owner == op.authorised_by().account()
            &&& op->destination == close_prizes.config.data.admin
        },
{
}

/// A shutdown returns everything: an admin who may withdraw may withdraw all that
/// the vault and the treasury hold, close both token accounts, and close the
/// configuration last, each time with the rent going to the admin. The admin is
/// writable and is not the configuration itself, which is writable too.
pub proof fn a_shutdown_returns_everything(
    program_id: Pubkey,
    fees: WithdrawTreasury,
    prizes: WithdrawVault,
)
    requires
        fees.refused(program_id) is None,
        prizes.refused(program_id) is None,
        prizes.config == fees.config,
        prizes.admin == fees.admin,
        fees.admin.is_writable,
        fees.config.info.is_writable,
        fees.admin.key != fees.config.info.key,
    ensures
        ({
            let drained = TokenAccount { amount: 0, ..fees.treasury_ata.data };
            let close_fees = CloseTreasuryAta {
                config: fees.config,
                treasury_ata: Account { data: drained, ..fees.treasury_ata },
                treasury: fees.treasury,
                admin: fees.admin,
                token_program: fees.token_program,
            };
            let op = crate::grindie::treasury_withdrawal(fees, fees.treasury_ata.data.amount);
            &&& op.taken_from(fees.treasury_ata.info.key) == fees.treasury_ata.data.amount
            &&& op.sent_to(fees.dest_ata.info.key) == fees.treasury_ata.data.amount
            &&& close_fees.refused(program_id) is None
            &&& crate::grindie::treasury_closure(close_fees).source() == fees.treasury_ata.info.key
        }),
        ({
            let drained = TokenAccount { amount: 0, ..prizes.vault_ata.data };
            let close_prizes = CloseVaultAta {
                config: prizes.config,
                vault_ata: Account { data: drained, ..prizes.vault_ata },
                vault: prizes.vault,
                admin: prizes.admin,
                token_program: prizes.token_program,
            };
            let op = crate::grindie::vault_withdrawal(prizes, prizes.vault_ata.data.amount);
            &&& op.taken_from(prizes.vault_ata.info.key) == prizes.vault_ata.data.amount
            &&& op.sent_to(prizes.dest_ata.info.key) == prizes.vault_ata.data.amount
            &&& close_prizes.refused(program_id) is None
            &&& crate::grindie::vault_closure(close_prizes).source() == prizes.vault_ata.info.key
        }),
        ({
            let last = CloseConfig { config: fees.config, admin: fees.admin };
            &&& last.refused(program_id) is None
            &&& crate::grindie::config_closure(last).account == fees.config.info.key
            &&& crate::grindie::config_closure(last).destination == fees.config.data.admin
        }),
{
}

/// There is one receipt account for each player and session: mintings that are
/// accepted for the same player and session write the same account.
pub proof fn one_receipt_for_each_session(
    program_id: Pubkey,
    session_id: u64,
    a: MintEndingNft,
    b: MintEndingNft,
)
    requires
        a.refused(program_id, session_id) is None,
        b.refused(program_id, session_id) is None,
        a.player.key == b.player.key,
    ensures
        a.receipt.info.key == b.receipt.info.key,
{
}

/// There is one session account and one escrow for each player and session id.
pub proof fn one_account_for_each_session(
    program_id: Pubkey,
    session_id: u64,
    a: StartArena,
    b: StartArena,
)
    requires
        a.refused(program_id, session_id) is None,
        b.refused(program_id, session_id) is None,
        a.player.key == b.player.key,
    ensures
        a.session.info.key == b.session.info.key,
        a.escrow.key == b.escrow.key,
{
}

/// The configuration that was written first is found again: the admin who signed
/// its creation, and signs again, may change it, and the program can sign for the
/// vault and the treasury with the bumps that it holds.
pub proof fn an_initialized_program_is_administered(
    program_id: Pubkey,
    a: Initialize,
    p: ConfigParams,
)
    requires
        a.refused(program_id) is None,
    ensures
        ({
            let after = crate::grindie::initialized(a.context(program_id), p).accounts;
            let c = after.config.data;
            &&& (AdminOnly { config: after.config, admin: after.admin }).refused(program_id) is None
            &&& program_signs(crate::grindie::vault_authority(after.vault.key, c), program_id)
            &&& program_signs(crate::grindie::treasury_authority(after.treasury.key, c), program_id)
        }),
{
    found_bumps_are_canonical(Pda::Config, program_id);
    found_bumps_are_canonical(Pda::Vault, program_id);
    found_bumps_are_canonical(Pda::Treasury, program_id);
}

/// A started session is found again: with the bumps that it holds, its seeds
/// create its own address and that of its escrow, which the program can then
/// sign for.
pub proof fn a_started_session_is_found_again(
    program_id: Pubkey,
    a: StartArena,
    session_id: u64,
    buyin: u64,
    slot: u64,
)
    requires
        a.refused(program_id, session_id) is None,
    ensures
        ({
            let after = crate::grindie::started(
                a.context(program_id, session_id),
                session_id,
                buyin,
                slot,
            ).accounts;
            let s = after.session.data;
            &&& (Pda::Session { player: s.player, session_id: s.session_id }).created(
                s.bump,
                program_id,
            ) == Some(after.session.info.key)
            &&& program_signs(crate::grindie::escrow_authority(after.escrow.key, s), program_id)
        }),
{
    found_bumps_are_canonical(Pda::Session { player: a.player.key, session_id }, program_id);
    found_bumps_are_canonical(Pda::Escrow { player: a.player.key, session_id }, program_id);
}

/// A started session can be settled: once the player's entry was accepted, a
/// settlement of that session is accepted that names the same player, escrow and
/// session, is signed by the backend signer, and takes token accounts of the
/// configured mint that the player, the escrow and the vault hold.
pub proof fn a_started_session_can_be_settled(
    program_id: Pubkey,
    start: StartArena,
    session_id: u64,
    buyin: u64,
    slot: u64,
    a: FinalizeArena,
)
    requires
        start.refused(program_id, session_id) is None,
        a.session == crate::grindie::started(
            start.context(program_id, session_id),
            session_id,
            buyin,
            slot,
        ).accounts.session,
        a.config == start.config,
        a.player.key == start.player.key,
        a.player_ata == start.player_ata,
        a.escrow.key == start.escrow.key,
        a.escrow_ata.info == start.escrow_ata.info,
        a.escrow_ata.held_by(a.escrow.key, a.config.data.mint),
        a.mint == start.mint,
        Pda::Vault.created(a.config.data.vault_bump, program_id) == Some(a.vault.key),
        a.vault_ata.info.is_writable,
        a.vault_ata.held_by(a.vault.key, a.config.data.mint),
        a.outcome_authority.is_signer,
        a.outcome_authority.key == a.config.data.outcome_authority,
    ensures
        a.refused(program_id) is None,
{
    a_started_session_is_found_again(program_id, start, session_id, buyin, slot);
}

} // verus!
