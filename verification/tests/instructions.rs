//! Instructions on accepted accounts, from the first configuration to teardown.
use grindie::accounts::{Account, AccountInfo, Context, Mint, TokenAccount};
use grindie::contexts::{
    AdminOnly, CloseConfig, CloseTreasuryAta, CloseVaultAta, FinalizeArena, Initialize,
    MintEndingNft, SeedVault, StartArena, WithdrawTreasury, WithdrawVault,
};
use grindie::error::{AccountError, GrindieError};
use grindie::grindie as program;
use grindie::ops::{AccountClosure, Authority, NftMinted, SessionFinalized, TokenOp};
use grindie::params::{apply_params, validate_params};
use grindie::pda::{associated_token_address, Pda};
use grindie::pubkey::Pubkey;
use grindie::state::{
    Config, ConfigParams, NftReceipt, Session, END_MADE_IT, END_REKT, END_REKT_FOREVER,
    STATUS_ACTIVE, STATUS_FINALIZED,
};

fn key(n: u8) -> Pubkey {
    Pubkey { bytes: [n; 32] }
}

fn id() -> Pubkey {
    key(11)
}

fn token_program() -> Pubkey {
    key(60)
}

fn info(k: Pubkey) -> AccountInfo {
    AccountInfo { key: k, owner: key(0), is_signer: false, is_writable: true }
}

fn signer(k: Pubkey) -> AccountInfo {
    AccountInfo { is_signer: true, ..info(k) }
}

fn token(k: Pubkey, owner: Pubkey, amount: u64) -> Account<TokenAccount> {
    Account {
        info: AccountInfo { owner: token_program(), ..info(k) },
        data: TokenAccount { mint: key(2), owner, amount },
    }
}

fn mint() -> Account<Mint> {
    Account { info: info(key(2)), data: Mint { decimals: 6 } }
}

fn params() -> ConfigParams {
    ConfigParams {
        holder_threshold: 500,
        buyin_min: 100,
        buyin_max: 1_000_000,
        session_fee: 101,
        nft_mint_fee: 25,
        rekt_forever_burn: 400,
        fee_burn_bps: 5_000,
        fee_treasury_bps: 5_000,
        win_share_bps: 8_000,
        win_burn_bps: 2_000,
        loss_vault_bps: 7_000,
        loss_burn_bps: 3_000,
        jackpot_share_bps: 1_000,
        win_cap_mult: 3,
    }
}

fn blank_config() -> Config {
    Config {
        admin: key(0),
        mint: key(0),
        outcome_authority: key(0),
        content_root: [7; 32],
        holder_threshold: 0,
        buyin_min: 0,
        buyin_max: 0,
        session_fee: 0,
        nft_mint_fee: 0,
        rekt_forever_burn: 0,
        fee_burn_bps: 0,
        fee_treasury_bps: 0,
        win_share_bps: 0,
        win_burn_bps: 0,
        loss_vault_bps: 0,
        loss_burn_bps: 0,
        jackpot_share_bps: 0,
        win_cap_mult: 0,
        paused: true,
        bump: 0,
        vault_bump: 0,
        treasury_bump: 0,
    }
}

fn blank_session() -> Session {
    Session {
        player: key(0),
        session_id: 0,
        buyin: 0,
        start_stack: 0,
        final_stack: 0,
        choices_hash: [0; 32],
        status: 0,
        ending: 0,
        created_slot: 0,
        bump: 0,
        escrow_bump: 0,
    }
}

fn address(pda: Pda) -> Pubkey {
    pda.find(&id()).unwrap().0
}

fn ata(wallet: Pubkey) -> Pubkey {
    associated_token_address(&wallet, &key(2), &token_program()).unwrap()
}

fn initialize_accounts() -> Initialize {
    let vault = address(Pda::Vault);
    let treasury = address(Pda::Treasury);
    Initialize {
        config: Account { info: info(address(Pda::Config)), data: blank_config() },
        vault: info(vault),
        vault_ata: token(ata(vault), vault, 0),
        treasury: info(treasury),
        treasury_ata: token(ata(treasury), treasury, 0),
        mint: mint(),
        outcome_authority: info(key(3)),
        admin: signer(key(1)),
        token_program: info(token_program()),
    }
}

fn config() -> Account<Config> {
    let mut ctx = initialize_accounts().try_accounts(id()).unwrap();
    program::initialize(&mut ctx, params()).unwrap();
    ctx.accounts.config
}

fn admin_only() -> AdminOnly {
    AdminOnly { config: config(), admin: signer(key(1)) }
}

fn player() -> Pubkey {
    key(9)
}

const SID: u64 = 7;

fn start_accounts(holdings: u64) -> StartArena {
    let escrow = address(Pda::Escrow { player: player(), session_id: SID });
    let treasury = address(Pda::Treasury);
    StartArena {
        config: config(),
        session: Account {
            info: info(address(Pda::Session { player: player(), session_id: SID })),
            data: blank_session(),
        },
        player_ata: token(key(40), player(), holdings),
        treasury_ata: token(ata(treasury), treasury, 0),
        treasury: info(treasury),
        escrow: info(escrow),
        escrow_ata: token(ata(escrow), escrow, 0),
        mint: mint(),
        player: signer(player()),
        token_program: info(token_program()),
    }
}

fn started(buyin: u64) -> Account<Session> {
    let mut ctx = start_accounts(10_000).try_accounts(id(), SID).unwrap();
    program::start_session_arena(&mut ctx, SID, buyin, 42).unwrap();
    ctx.accounts.session
}

fn finalize_accounts(buyin: u64, vault_amount: u64) -> FinalizeArena {
    let escrow = address(Pda::Escrow { player: player(), session_id: SID });
    let vault = address(Pda::Vault);
    FinalizeArena {
        config: config(),
        session: started(buyin),
        player_ata: token(key(40), player(), 0),
        escrow: info(escrow),
        escrow_ata: token(ata(escrow), escrow, buyin),
        vault: info(vault),
        vault_ata: token(ata(vault), vault, vault_amount),
        mint: mint(),
        player: info(player()),
        outcome_authority: signer(key(3)),
        token_program: info(token_program()),
    }
}

fn mint_accounts() -> MintEndingNft {
    MintEndingNft {
        config: config(),
        receipt: Account {
            info: info(address(Pda::NftReceipt { player: player(), session_id: SID })),
            data: NftReceipt { player: key(0), session_id: 0, ending: 0, bump: 0 },
        },
        player_ata: token(key(40), player(), 1_000),
        mint: mint(),
        player: signer(player()),
        outcome_authority: signer(key(3)),
        asset: signer(key(50)),
        mpl_core: info(Pubkey { bytes: mpl_core::ID.to_bytes() }),
        token_program: info(token_program()),
    }
}

fn transfer(from: Pubkey, to: Pubkey, authority: Authority, amount: u64) -> TokenOp {
    TokenOp::TransferChecked {
        program: token_program(),
        from,
        mint: key(2),
        to,
        authority,
        amount,
        decimals: 6,
    }
}

fn burn(from: Pubkey, authority: Authority, amount: u64) -> TokenOp {
    TokenOp::Burn { program: token_program(), mint: key(2), from, authority, amount }
}

fn wallet(k: Pubkey) -> Authority {
    Authority::Wallet { key: k }
}

fn signed(pda: Pda) -> Authority {
    let (k, bump) = pda.find(&id()).unwrap();
    Authority::Program { key: k, pda, bump }
}

fn escrow_pda() -> Pda {
    Pda::Escrow { player: player(), session_id: SID }
}

#[test]
fn valid_parameters_are_accepted() {
    assert_eq!(validate_params(&params()), Ok(()));
}

#[test]
fn splits_have_to_make_a_whole() {
    let p = params();
    let bad = Err(GrindieError::BpsSumInvalid);
    assert_eq!(validate_params(&ConfigParams { fee_burn_bps: 5_001, ..p }), bad);
    assert_eq!(validate_params(&ConfigParams { win_burn_bps: 1_999, ..p }), bad);
    assert_eq!(validate_params(&ConfigParams { loss_vault_bps: 0, ..p }), bad);
    assert_eq!(validate_params(&ConfigParams { jackpot_share_bps: 10_001, ..p }), bad);
    assert_eq!(validate_params(&ConfigParams { jackpot_share_bps: 10_000, ..p }), Ok(()));
}

#[test]
fn a_split_that_does_not_fit_is_refused() {
    let p = ConfigParams {
        holder_threshold: 0,
        buyin_min: 1,
        buyin_max: 2,
        session_fee: 0,
        nft_mint_fee: 0,
        rekt_forever_burn: 0,
        fee_burn_bps: 65_535,
        fee_treasury_bps: 10_001,
        win_share_bps: 7_000,
        win_burn_bps: 3_000,
        loss_vault_bps: 5_000,
        loss_burn_bps: 5_000,
        jackpot_share_bps: 0,
        win_cap_mult: 3,
    };
    let bad = Err(GrindieError::BpsSumInvalid);
    assert_eq!(validate_params(&p), bad);
    let q = params();
    let win = ConfigParams { win_share_bps: u16::MAX, win_burn_bps: 10_001, ..q };
    assert_eq!(validate_params(&win), bad);
    let loss = ConfigParams { loss_vault_bps: 10_001, loss_burn_bps: u16::MAX, ..q };
    assert_eq!(validate_params(&loss), bad);
    let mut first = initialize_accounts().try_accounts(id()).unwrap();
    let before = first;
    assert_eq!(program::initialize(&mut first, p), bad);
    assert_eq!(first, before);
    let mut later = admin_only().try_accounts(id()).unwrap();
    let kept = later;
    assert_eq!(program::update_config(&mut later, win), bad);
    assert_eq!(later, kept);
}

#[test]
fn a_reversed_range_is_refused_after_the_splits() {
    let p = ConfigParams { buyin_min: 2, buyin_max: 1, ..params() };
    assert_eq!(validate_params(&p), Err(GrindieError::BuyinOutOfRange));
    let q = ConfigParams { fee_burn_bps: 0, ..p };
    assert_eq!(validate_params(&q), Err(GrindieError::BpsSumInvalid));
    let r = ConfigParams { buyin_min: 2, buyin_max: 2, ..p };
    assert_eq!(validate_params(&r), Ok(()));
}

#[test]
fn applied_parameters_are_read_back_and_nothing_else_changes() {
    let mut c = blank_config();
    apply_params(&mut c, &params());
    assert_eq!(
        c,
        Config {
            holder_threshold: 500,
            buyin_min: 100,
            buyin_max: 1_000_000,
            session_fee: 101,
            nft_mint_fee: 25,
            rekt_forever_burn: 400,
            fee_burn_bps: 5_000,
            fee_treasury_bps: 5_000,
            win_share_bps: 8_000,
            win_burn_bps: 2_000,
            loss_vault_bps: 7_000,
            loss_burn_bps: 3_000,
            jackpot_share_bps: 1_000,
            win_cap_mult: 3,
            ..blank_config()
        }
    );
}

#[test]
fn lengths_are_the_bytes_of_the_fields() {
    assert_eq!(Config::LEN, 195);
    assert_eq!(Session::LEN, 108);
    assert_eq!(NftReceipt::LEN, 42);
}

#[test]
fn initialize_writes_the_first_configuration() {
    let c = config().data;
    assert_eq!(c.admin, key(1));
    assert_eq!(c.mint, key(2));
    assert_eq!(c.outcome_authority, key(3));
    assert_eq!(c.content_root, [0; 32]);
    assert!(!c.paused);
    assert_eq!(c.bump, Pda::Config.find(&id()).unwrap().1);
    assert_eq!(c.vault_bump, Pda::Vault.find(&id()).unwrap().1);
    assert_eq!(c.treasury_bump, Pda::Treasury.find(&id()).unwrap().1);
    assert_eq!(c.session_fee, 101);
    assert_eq!(c.win_cap_mult, 3);
}

#[test]
fn initialize_refuses_bad_parameters_and_changes_nothing() {
    let mut ctx = initialize_accounts().try_accounts(id()).unwrap();
    let before = ctx;
    let p = ConfigParams { win_share_bps: 1, ..params() };
    assert_eq!(program::initialize(&mut ctx, p), Err(GrindieError::BpsSumInvalid));
    assert_eq!(ctx, before);
}

#[test]
fn initialize_asks_for_derived_accounts() {
    let a = initialize_accounts();
    let refused = |b: Initialize| b.try_accounts(id()).unwrap_err();
    let admin = info(key(1));
    assert_eq!(refused(Initialize { admin, ..a }), AccountError::NotSigner);
    let config = Account { info: info(key(70)), ..a.config };
    assert_eq!(refused(Initialize { config, ..a }), AccountError::Seeds);
    let vault_ata = token(key(70), a.vault.key, 0);
    assert_eq!(refused(Initialize { vault_ata, ..a }), AccountError::Associated);
    let vault_ata = token(a.vault_ata.info.key, key(70), 0);
    assert_eq!(refused(Initialize { vault_ata, ..a }), AccountError::TokenOwner);
    let token_program = info(key(61));
    assert_eq!(
        refused(Initialize { token_program, ..a }),
        AccountError::AssociatedTokenProgram
    );
    let vault = info(key(70));
    let vault_ata = token(ata(key(70)), key(70), 0);
    assert_eq!(refused(Initialize { vault, vault_ata, ..a }), AccountError::Seeds);
    let admin = AccountInfo { is_writable: false, ..a.admin };
    assert_eq!(refused(Initialize { admin, ..a }), AccountError::Mut);
}

#[test]
fn addresses_that_no_bump_derives_are_refused() {
    let a = initialize_accounts();
    let ata = Some(a.vault_ata.info.key);
    let found = Some((a.vault.key, 255));
    assert_eq!(a.check(None, ata, ata, found, found), Some(AccountError::NoBump));
}

#[test]
fn the_admin_updates_the_configuration() {
    let mut ctx = admin_only().try_accounts(id()).unwrap();
    let before = ctx.accounts.config.data;
    let p = ConfigParams { session_fee: 9, win_cap_mult: 5, ..params() };
    assert_eq!(program::update_config(&mut ctx, p), Ok(()));
    assert_eq!(
        ctx.accounts.config.data,
        Config { session_fee: 9, win_cap_mult: 5, ..before }
    );
    let bad = ConfigParams { buyin_min: 9, buyin_max: 8, ..params() };
    let kept = ctx;
    assert_eq!(program::update_config(&mut ctx, bad), Err(GrindieError::BuyinOutOfRange));
    assert_eq!(ctx, kept);
}

#[test]
fn setters_change_one_field_each() {
    let mut ctx = admin_only().try_accounts(id()).unwrap();
    let mut expected = ctx.accounts.config.data;
    program::set_outcome_authority(&mut ctx, key(80)).unwrap();
    expected.outcome_authority = key(80);
    assert_eq!(ctx.accounts.config.data, expected);
    program::set_mint(&mut ctx, key(81)).unwrap();
    expected.mint = key(81);
    assert_eq!(ctx.accounts.config.data, expected);
    program::set_content_root(&mut ctx, [82; 32]).unwrap();
    expected.content_root = [82; 32];
    assert_eq!(ctx.accounts.config.data, expected);
    program::set_paused(&mut ctx, true).unwrap();
    expected.paused = true;
    assert_eq!(ctx.accounts.config.data, expected);
    program::set_admin(&mut ctx, key(83)).unwrap();
    expected.admin = key(83);
    assert_eq!(ctx.accounts.config.data, expected);
}

#[test]
fn only_the_admin_administers() {
    let a = admin_only();
    let refused = |b: AdminOnly| b.try_accounts(id()).unwrap_err();
    assert_eq!(refused(AdminOnly { admin: signer(key(4)), ..a }), AccountError::HasOne);
    assert_eq!(refused(AdminOnly { admin: info(key(1)), ..a }), AccountError::NotSigner);
    let forged = Account { info: info(key(70)), ..a.config };
    assert_eq!(refused(AdminOnly { config: forged, ..a }), AccountError::Seeds);
    let readonly =
        Account { info: AccountInfo { is_writable: false, ..a.config.info }, ..a.config };
    assert_eq!(refused(AdminOnly { config: readonly, ..a }), AccountError::Mut);
    assert_eq!(a.try_accounts(key(12)).unwrap_err(), AccountError::Seeds);
}

#[test]
fn a_new_admin_replaces_the_old_one() {
    let mut ctx = admin_only().try_accounts(id()).unwrap();
    program::set_admin(&mut ctx, key(4)).unwrap();
    let after = ctx.accounts;
    assert_eq!(after.try_accounts(id()).unwrap_err(), AccountError::HasOne);
    assert!(AdminOnly { admin: signer(key(4)), ..after }.try_accounts(id()).is_ok());
}

#[test]
fn the_vault_is_seeded_by_the_admin() {
    let vault = address(Pda::Vault);
    let a = SeedVault {
        config: config(),
        source_ata: token(key(41), key(1), 900),
        vault_ata: token(ata(vault), vault, 0),
        vault: info(vault),
        admin: signer(key(1)),
        mint: mint(),
        token_program: info(token_program()),
    };
    let ctx = a.try_accounts(id()).unwrap();
    assert_eq!(
        program::seed_vault(&ctx, 900),
        Ok(transfer(key(41), ata(vault), wallet(key(1)), 900))
    );
    let mut foreign = a;
    foreign.source_ata.data.mint = key(99);
    assert_eq!(foreign.try_accounts(id()).unwrap_err(), AccountError::TokenMint);
    let mut stolen = a;
    stolen.vault_ata.data.owner = key(99);
    assert_eq!(stolen.try_accounts(id()).unwrap_err(), AccountError::TokenOwner);
    let mut other_mint = a;
    other_mint.mint.info.key = key(99);
    assert_eq!(other_mint.try_accounts(id()).unwrap_err(), AccountError::Address);
}

#[test]
fn the_admin_withdraws_with_the_seeds_of_the_holder() {
    let vault = address(Pda::Vault);
    let treasury = address(Pda::Treasury);
    let fees = WithdrawTreasury {
        config: config(),
        treasury_ata: token(ata(treasury), treasury, 500),
        dest_ata: token(key(41), key(1), 0),
        treasury: info(treasury),
        admin: signer(key(1)),
        mint: mint(),
        token_program: info(token_program()),
    };
    assert_eq!(
        program::withdraw_treasury(&fees.try_accounts(id()).unwrap(), 500),
        Ok(transfer(ata(treasury), key(41), signed(Pda::Treasury), 500))
    );
    let prizes = WithdrawVault {
        config: config(),
        vault_ata: token(ata(vault), vault, 500),
        dest_ata: token(key(41), key(1), 0),
        vault: info(vault),
        admin: signer(key(1)),
        mint: mint(),
        token_program: info(token_program()),
    };
    assert_eq!(
        program::withdraw_vault(&prizes.try_accounts(id()).unwrap(), 1),
        Ok(transfer(ata(vault), key(41), signed(Pda::Vault), 1))
    );
    let thief = WithdrawVault { admin: signer(key(5)), ..prizes };
    assert_eq!(thief.try_accounts(id()).unwrap_err(), AccountError::HasOne);
}

#[test]
fn teardown_returns_the_rent_to_the_admin() {
    let vault = address(Pda::Vault);
    let treasury = address(Pda::Treasury);
    let fees = CloseTreasuryAta {
        config: config(),
        treasury_ata: token(ata(treasury), treasury, 0),
        treasury: info(treasury),
        admin: signer(key(1)),
        token_program: info(token_program()),
    };
    assert_eq!(
        program::close_treasury_ata(&fees.try_accounts(id()).unwrap()),
        Ok(TokenOp::CloseAccount {
            program: token_program(),
            account: ata(treasury),
            destination: key(1),
            authority: signed(Pda::Treasury),
        })
    );
    let prizes = CloseVaultAta {
        config: config(),
        vault_ata: token(ata(vault), vault, 0),
        vault: info(vault),
        admin: signer(key(1)),
        token_program: info(token_program()),
    };
    assert_eq!(
        program::close_vault_ata(&prizes.try_accounts(id()).unwrap()),
        Ok(TokenOp::CloseAccount {
            program: token_program(),
            account: ata(vault),
            destination: key(1),
            authority: signed(Pda::Vault),
        })
    );
    let last = CloseConfig { config: config(), admin: signer(key(1)) };
    assert_eq!(
        program::close_config(&last.try_accounts(id()).unwrap()),
        Ok(AccountClosure { account: address(Pda::Config), destination: key(1) })
    );
}

#[test]
fn a_shutdown_drains_and_closes_everything() {
    let vault = address(Pda::Vault);
    let prizes = WithdrawVault {
        config: config(),
        vault_ata: token(ata(vault), vault, 777),
        dest_ata: token(key(41), key(1), 0),
        vault: info(vault),
        admin: signer(key(1)),
        mint: mint(),
        token_program: info(token_program()),
    };
    let held = prizes.vault_ata.data.amount;
    assert_eq!(
        program::withdraw_vault(&prizes.try_accounts(id()).unwrap(), held),
        Ok(transfer(ata(vault), key(41), signed(Pda::Vault), 777))
    );
    let close = CloseVaultAta {
        config: prizes.config,
        vault_ata: token(ata(vault), vault, 0),
        vault: prizes.vault,
        admin: prizes.admin,
        token_program: prizes.token_program,
    };
    assert!(close.try_accounts(id()).is_ok());
    let last = CloseConfig { config: prizes.config, admin: prizes.admin };
    assert!(last.try_accounts(id()).is_ok());
    let other = CloseConfig { admin: signer(key(5)), ..last };
    assert_eq!(other.try_accounts(id()).unwrap_err(), AccountError::HasOne);
}

#[test]
fn the_admin_can_change_every_field_but_the_bumps() {
    let mut ctx = admin_only().try_accounts(id()).unwrap();
    let before = ctx.accounts.config.data;
    let p = ConfigParams {
        holder_threshold: 1,
        buyin_min: 2,
        buyin_max: 3,
        session_fee: 4,
        nft_mint_fee: 5,
        rekt_forever_burn: 6,
        fee_burn_bps: 1,
        fee_treasury_bps: 9_999,
        win_share_bps: 2,
        win_burn_bps: 9_998,
        loss_vault_bps: 3,
        loss_burn_bps: 9_997,
        jackpot_share_bps: 7,
        win_cap_mult: 8,
    };
    program::update_config(&mut ctx, p).unwrap();
    program::set_outcome_authority(&mut ctx, key(90)).unwrap();
    program::set_mint(&mut ctx, key(91)).unwrap();
    program::set_content_root(&mut ctx, [92; 32]).unwrap();
    program::set_paused(&mut ctx, true).unwrap();
    program::set_admin(&mut ctx, key(93)).unwrap();
    assert_eq!(
        ctx.accounts.config.data,
        Config {
            admin: key(93),
            mint: key(91),
            outcome_authority: key(90),
            content_root: [92; 32],
            holder_threshold: 1,
            buyin_min: 2,
            buyin_max: 3,
            session_fee: 4,
            nft_mint_fee: 5,
            rekt_forever_burn: 6,
            fee_burn_bps: 1,
            fee_treasury_bps: 9_999,
            win_share_bps: 2,
            win_burn_bps: 9_998,
            loss_vault_bps: 3,
            loss_burn_bps: 9_997,
            jackpot_share_bps: 7,
            win_cap_mult: 8,
            paused: true,
            bump: before.bump,
            vault_bump: before.vault_bump,
            treasury_bump: before.treasury_bump,
        }
    );
}

#[test]
fn the_configuration_is_not_its_own_heir() {
    let c = config();
    let own = c.info.key;
    let data = Config { admin: own, ..c.data };
    let a = CloseConfig { config: Account { data, ..c }, admin: signer(own) };
    assert_eq!(a.try_accounts(id()).unwrap_err(), AccountError::Close);
}

#[test]
fn an_entry_charges_the_fee_and_the_stake() {
    let mut ctx = start_accounts(10_000).try_accounts(id(), SID).unwrap();
    let ops = program::start_session_arena(&mut ctx, SID, 1_000, 42).unwrap();
    let escrow = address(escrow_pda());
    assert_eq!(
        ops,
        vec![
            burn(key(40), wallet(player()), 50),
            transfer(key(40), ata(address(Pda::Treasury)), wallet(player()), 51),
            transfer(key(40), ata(escrow), wallet(player()), 1_000),
        ]
    );
    let s = ctx.accounts.session.data;
    assert_eq!(s.player, player());
    assert_eq!(s.session_id, SID);
    assert_eq!(s.buyin, 1_000);
    assert_eq!(s.start_stack, 1_000);
    assert_eq!(s.final_stack, 0);
    assert_eq!(s.choices_hash, [0; 32]);
    assert_eq!(s.status, STATUS_ACTIVE);
    assert_eq!(s.ending, 0xFF);
    assert_eq!(s.created_slot, 42);
    let own = Pda::Session { player: player(), session_id: SID };
    assert_eq!(s.bump, own.find(&id()).unwrap().1);
    assert_eq!(s.escrow_bump, escrow_pda().find(&id()).unwrap().1);
}

#[test]
fn parts_of_the_fee_that_are_zero_are_left_out() {
    let mut a = start_accounts(10_000);
    a.config.data.session_fee = 1;
    let mut ctx = a.try_accounts(id(), SID).unwrap();
    let ops = program::start_session_arena(&mut ctx, SID, 100, 0).unwrap();
    assert_eq!(ops.len(), 2);
    a.config.data.fee_burn_bps = 10_000;
    a.config.data.fee_treasury_bps = 0;
    let mut ctx = a.try_accounts(id(), SID).unwrap();
    let ops = program::start_session_arena(&mut ctx, SID, 100, 0).unwrap();
    assert_eq!(ops[0], burn(key(40), wallet(player()), 1));
    assert_eq!(ops.len(), 2);
    a.config.data.session_fee = 0;
    a.config.data.buyin_min = 0;
    let mut ctx = a.try_accounts(id(), SID).unwrap();
    let ops = program::start_session_arena(&mut ctx, SID, 0, 0).unwrap();
    assert_eq!(ops, vec![transfer(key(40), ata(address(escrow_pda())), wallet(player()), 0)]);
}

#[test]
fn a_refused_entry_changes_nothing() {
    let mut ctx = start_accounts(499).try_accounts(id(), SID).unwrap();
    let before = ctx;
    assert_eq!(
        program::start_session_arena(&mut ctx, SID, 1_000, 42),
        Err(GrindieError::NotHolder)
    );
    assert_eq!(ctx, before);
}

#[test]
fn an_entry_asks_for_the_accounts_of_the_session() {
    let a = start_accounts(10_000);
    assert_eq!(a.try_accounts(id(), SID + 1).unwrap_err(), AccountError::Seeds);
    let unsigned = StartArena { player: info(player()), ..a };
    assert_eq!(unsigned.try_accounts(id(), SID).unwrap_err(), AccountError::NotSigner);
    let mut other = a;
    other.player_ata.data.owner = key(70);
    assert_eq!(other.try_accounts(id(), SID).unwrap_err(), AccountError::TokenOwner);
}

#[test]
fn a_session_id_has_one_account_for_each_player() {
    let a = start_accounts(10_000);
    let mut again = a;
    again.player_ata = token(key(44), player(), 20_000);
    assert!(again.try_accounts(id(), SID).is_ok());
    again.session.info = info(key(70));
    assert_eq!(again.try_accounts(id(), SID).unwrap_err(), AccountError::Seeds);
    let other = key(8);
    let mine = Pda::Session { player: player(), session_id: SID };
    let theirs = Pda::Session { player: other, session_id: SID };
    assert!(address(mine) != address(theirs));
    let escrow = address(Pda::Escrow { player: other, session_id: SID });
    let b = StartArena {
        session: Account { info: info(address(theirs)), data: blank_session() },
        player_ata: token(key(45), other, 10_000),
        escrow: info(escrow),
        escrow_ata: token(ata(escrow), escrow, 0),
        player: signer(other),
        ..a
    };
    assert!(b.try_accounts(id(), SID).is_ok());
}

#[test]
fn a_second_receipt_or_configuration_needs_the_same_account() {
    let mut m = mint_accounts();
    m.asset = signer(key(52));
    assert!(m.try_accounts(id(), SID).is_ok());
    m.receipt.info = info(key(70));
    assert_eq!(m.try_accounts(id(), SID).unwrap_err(), AccountError::Seeds);
    let mut i = initialize_accounts();
    i.admin = signer(key(5));
    assert!(i.try_accounts(id()).is_ok());
    i.config.info = info(key(70));
    assert_eq!(i.try_accounts(id()).unwrap_err(), AccountError::Seeds);
}

#[test]
fn a_win_is_paid_from_escrow_and_vault() {
    let a = finalize_accounts(1_000, 10_000);
    let mut ctx = a.try_accounts(id()).unwrap();
    let outcome = program::finalize_arena(&mut ctx, 1_501, END_MADE_IT, [5; 32]).unwrap();
    let vault = ata(address(Pda::Vault));
    let escrow = ata(address(escrow_pda()));
    assert_eq!(
        outcome.ops,
        vec![
            transfer(escrow, key(40), signed(escrow_pda()), 1_000),
            transfer(vault, key(40), signed(Pda::Vault), 400),
            burn(vault, signed(Pda::Vault), 101),
        ]
    );
    assert_eq!(
        outcome.event,
        SessionFinalized {
            player: player(),
            session_id: SID,
            ending: END_MADE_IT,
            final_stack: 1_501,
        }
    );
    assert_eq!(
        ctx.accounts.session.data,
        Session {
            final_stack: 1_501,
            ending: END_MADE_IT,
            choices_hash: [5; 32],
            status: STATUS_FINALIZED,
            ..a.session.data
        }
    );
}

#[test]
fn a_loss_is_paid_from_escrow_alone() {
    let mut ctx = finalize_accounts(1_000, 10_000).try_accounts(id()).unwrap();
    let outcome = program::finalize_arena(&mut ctx, 499, END_REKT, [0; 32]).unwrap();
    let vault = ata(address(Pda::Vault));
    let escrow = ata(address(escrow_pda()));
    assert_eq!(
        outcome.ops,
        vec![
            transfer(escrow, key(40), signed(escrow_pda()), 499),
            transfer(escrow, vault, signed(escrow_pda()), 351),
            burn(escrow, signed(escrow_pda()), 150),
        ]
    );
}

#[test]
fn losing_everything_for_good_burns_from_the_vault() {
    let mut ctx = finalize_accounts(1_000, 10_000).try_accounts(id()).unwrap();
    let outcome = program::finalize_arena(&mut ctx, 0, END_REKT_FOREVER, [0; 32]).unwrap();
    let vault = ata(address(Pda::Vault));
    let escrow = ata(address(escrow_pda()));
    assert_eq!(
        outcome.ops,
        vec![
            transfer(escrow, vault, signed(escrow_pda()), 700),
            burn(escrow, signed(escrow_pda()), 300),
            burn(vault, signed(Pda::Vault), 400),
        ]
    );
}

#[test]
fn a_winner_gets_an_empty_stake_back() {
    let mut a = finalize_accounts(100, 10_000);
    a.session.data.buyin = 0;
    let mut ctx = a.try_accounts(id()).unwrap();
    let outcome = program::finalize_arena(&mut ctx, 50, END_MADE_IT, [0; 32]).unwrap();
    let escrow = ata(address(escrow_pda()));
    assert_eq!(outcome.ops, vec![transfer(escrow, key(40), signed(escrow_pda()), 0)]);
}

#[test]
fn a_session_is_settled_once() {
    let mut ctx = finalize_accounts(1_000, 0).try_accounts(id()).unwrap();
    program::finalize_arena(&mut ctx, 10, END_REKT, [1; 32]).unwrap();
    let settled = ctx;
    assert_eq!(
        program::finalize_arena(&mut ctx, 9_000, END_MADE_IT, [2; 32]),
        Err(GrindieError::SessionFinalized)
    );
    assert_eq!(program::finalize_arena(&mut ctx, 10, 6, [2; 32]), Err(GrindieError::BadEnding));
    assert_eq!(ctx, settled);
}

#[test]
fn the_backend_settles_without_the_player() {
    let a = finalize_accounts(1_000, 0);
    assert!(!a.player.is_signer);
    assert!(a.try_accounts(id()).is_ok());
    let signs = FinalizeArena { player: signer(player()), ..a };
    assert!(signs.try_accounts(id()).is_ok());
    let unsigned = FinalizeArena { outcome_authority: info(key(3)), ..a };
    assert_eq!(unsigned.try_accounts(id()).unwrap_err(), AccountError::NotSigner);
    let stranger = FinalizeArena { outcome_authority: signer(key(4)), ..a };
    assert_eq!(stranger.try_accounts(id()).unwrap_err(), AccountError::Address);
    let other = FinalizeArena { player: info(key(8)), ..a };
    assert_eq!(other.try_accounts(id()).unwrap_err(), AccountError::Seeds);
}

#[test]
fn a_settlement_pays_the_player_of_the_session() {
    let mut a = finalize_accounts(1_000, 0);
    a.session.data.player = key(8);
    assert_eq!(a.try_accounts(id()).unwrap_err(), AccountError::HasOne);
    let mut b = finalize_accounts(1_000, 0);
    b.player_ata.data.owner = key(8);
    assert_eq!(b.try_accounts(id()).unwrap_err(), AccountError::TokenOwner);
}

#[test]
fn an_ending_is_minted_soulbound() {
    let mut ctx = mint_accounts().try_accounts(id(), SID).unwrap();
    let outcome = program::mint_ending_nft(
        &mut ctx,
        SID,
        END_MADE_IT,
        "Made it".to_string(),
        "https://example.org/2.json".to_string(),
    )
    .unwrap();
    assert_eq!(outcome.ops, vec![burn(key(40), wallet(player()), 25)]);
    assert_eq!(outcome.asset.program, Pubkey { bytes: mpl_core::ID.to_bytes() });
    assert_eq!(outcome.asset.asset, key(50));
    assert_eq!(outcome.asset.payer, player());
    assert_eq!(outcome.asset.owner, player());
    assert_eq!(outcome.asset.update_authority, address(Pda::Config));
    assert_eq!(outcome.asset.name, "Made it");
    assert_eq!(outcome.asset.uri, "https://example.org/2.json");
    assert!(outcome.asset.frozen);
    assert_eq!(
        outcome.event,
        NftMinted { player: player(), session_id: SID, ending: END_MADE_IT }
    );
    let own = Pda::NftReceipt { player: player(), session_id: SID };
    assert_eq!(
        ctx.accounts.receipt.data,
        NftReceipt {
            player: player(),
            session_id: SID,
            ending: END_MADE_IT,
            bump: own.find(&id()).unwrap().1,
        }
    );
}

#[test]
fn a_free_mint_burns_nothing() {
    let mut a = mint_accounts();
    a.config.data.nft_mint_fee = 0;
    let mut ctx = a.try_accounts(id(), SID).unwrap();
    let outcome =
        program::mint_ending_nft(&mut ctx, SID, 0, String::new(), String::new()).unwrap();
    assert_eq!(outcome.ops, vec![]);
}

#[test]
fn texts_are_bounded_in_bytes() {
    let mut ctx = mint_accounts().try_accounts(id(), SID).unwrap();
    let before = ctx;
    let bad = Err(GrindieError::BadEnding);
    let mut run = |ending: u8, name: String, uri: String| {
        program::mint_ending_nft(&mut ctx, SID, ending, name, uri).map(|_| ())
    };
    assert_eq!(run(6, String::new(), String::new()), bad);
    assert_eq!(run(0, "a".repeat(65), String::new()), bad);
    assert_eq!(run(0, "é".repeat(33), String::new()), bad);
    assert_eq!(run(0, String::new(), "b".repeat(201)), bad);
    assert_eq!(ctx, before);
    let mut ctx = before;
    let r = program::mint_ending_nft(&mut ctx, SID, 5, "é".repeat(32), "b".repeat(200));
    assert!(r.is_ok());
}

#[test]
fn a_minting_asks_for_its_signers_and_programs() {
    let a = mint_accounts();
    let refused = |b: MintEndingNft| b.try_accounts(id(), SID).unwrap_err();
    let asset = info(key(50));
    assert_eq!(refused(MintEndingNft { asset, ..a }), AccountError::NotSigner);
    let outcome_authority = signer(key(4));
    assert_eq!(refused(MintEndingNft { outcome_authority, ..a }), AccountError::Address);
    let mpl_core = info(key(51));
    assert_eq!(refused(MintEndingNft { mpl_core, ..a }), AccountError::Address);
    assert_eq!(a.try_accounts(id(), SID + 1).unwrap_err(), AccountError::Seeds);
}

#[test]
fn a_context_carries_its_program_and_accounts() {
    let a = admin_only();
    let ctx = a.try_accounts(id()).unwrap();
    assert_eq!(ctx, Context { program_id: id(), accounts: a, bumps: () });
}
