//! The accounts that each instruction takes, and the constraints that it places
//! on them.
//!
//! An account arrives here as the runtime hands it over: loaded, that is owned
//! by the program that its type asks for and decoded, and created where the
//! instruction creates it. What is checked here is what one instruction demands
//! of its accounts: who signs, what is written, and which account stands where.
//! Of several broken constraints the first one is reported: signatures come
//! first, then the new accounts, then the others, in the order of the fields.
use crate::accounts::{Account, AccountInfo, Context, Mint, TokenAccount};
use crate::error::AccountError;
use crate::pda::{associated_token_address, is_mpl_core, Pda};
use crate::pubkey::Pubkey;
use crate::state::{Config, NftReceipt, Session};
use vstd::prelude::*;

verus! {

/// Whether an address was derived and is `key`.
fn is_at(derived: &Option<Pubkey>, key: &Pubkey) -> (r: bool)
    ensures
        r == (*derived == Some(*key)),
{
    match derived {
        Some(d) => *d == *key,
        None => false,
    }
}

/// Whether an address was found and is `key`.
fn found_at(found: &Option<(Pubkey, u8)>, key: &Pubkey) -> (r: bool)
    ensures
        r == (*found is Some && (found->0).0 == *key),
{
    match found {
        Some((d, _)) => *d == *key,
        None => false,
    }
}

/// The bumps found for the derived addresses of `Initialize`.
#[derive(Clone, Copy, Debug, PartialEq, Eq)]
pub struct InitializeBumps {
    pub config: u8,
    pub vault: u8,
    pub treasury: u8,
}

/// The accounts of `initialize`: the configuration and the two token accounts
/// are new, and the admin pays for them.
#[derive(Clone, Copy, Debug, PartialEq, Eq)]
pub struct Initialize {
    pub config: Account<Config>,
    pub vault: AccountInfo,
    pub vault_ata: Account<TokenAccount>,
    pub treasury: AccountInfo,
    pub treasury_ata: Account<TokenAccount>,
    pub mint: Account<Mint>,
    /// The backend signer; it need not sign here.
    pub outcome_authority: AccountInfo,
    pub admin: AccountInfo,
    pub token_program: AccountInfo,
}

impl Initialize {
    /// The first constraint that these accounts break, given the addresses that
    /// the seeds derive, or `None` if they break none.
    pub open spec fn refusal(
        self,
        config_found: Option<(Pubkey, u8)>,
        vault_ata_pda: Option<Pubkey>,
        treasury_ata_pda: Option<Pubkey>,
        vault_found: Option<(Pubkey, u8)>,
        treasury_found: Option<(Pubkey, u8)>,
    ) -> Option<AccountError> {
        if !self.admin.is_signer {
            Some(AccountError::NotSigner)
        } else if config_found is None {
            Some(AccountError::NoBump)
        } else if (config_found->0).0 != self.config.info.key {
            Some(AccountError::Seeds)
        } else if !self.config.info.is_writable {
            Some(AccountError::Mut)
        } else if self.vault_ata.info.owner != self.token_program.key {
            Some(AccountError::AssociatedTokenProgram)
        } else if self.vault_ata.data.owner != self.vault.key {
            Some(AccountError::TokenOwner)
        } else if vault_ata_pda is None {
            Some(AccountError::NoBump)
        } else if vault_ata_pda != Some(self.vault_ata.info.key) {
            Some(AccountError::Associated)
        } else if !self.vault_ata.info.is_writable {
            Some(AccountError::Mut)
        } else if self.treasury_ata.info.owner != self.token_program.key {
            Some(AccountError::AssociatedTokenProgram)
        } else if self.treasury_ata.data.owner != self.treasury.key {
            Some(AccountError::TokenOwner)
        } else if treasury_ata_pda is None {
            Some(AccountError::NoBump)
        } else if treasury_ata_pda != Some(self.treasury_ata.info.key) {
            Some(AccountError::Associated)
        } else if !self.treasury_ata.info.is_writable {
            Some(AccountError::Mut)
        } else if vault_found is None {
            Some(AccountError::NoBump)
        } else if (vault_found->0).0 != self.vault.key {
            Some(AccountError::Seeds)
        } else if treasury_found is None {
            Some(AccountError::NoBump)
        } else if (treasury_found->0).0 != self.treasury.key {
            Some(AccountError::Seeds)
        } else if !self.admin.is_writable {
            Some(AccountError::Mut)
        } else {
            None
        }
    }

    /// These accounts keep every constraint.
    pub open spec fn accepted(
        self,
        config_found: Option<(Pubkey, u8)>,
        vault_ata_pda: Option<Pubkey>,
        treasury_ata_pda: Option<Pubkey>,
        vault_found: Option<(Pubkey, u8)>,
        treasury_found: Option<(Pubkey, u8)>,
    ) -> bool {
        &&& self.admin.is_signer
        &&& config_found is Some && (config_found->0).0 == self.config.info.key
        &&& self.config.info.is_writable
        &&& self.vault_ata.info.owner == self.token_program.key
        &&& self.vault_ata.data.owner == self.vault.key
        &&& vault_ata_pda == Some(self.vault_ata.info.key)
        &&& self.vault_ata.info.is_writable
        &&& self.treasury_ata.info.owner == self.token_program.key
        &&& self.treasury_ata.data.owner == self.treasury.key
        &&& treasury_ata_pda == Some(self.treasury_ata.info.key)
        &&& self.treasury_ata.info.is_writable
        &&& vault_found is Some && (vault_found->0).0 == self.vault.key
        &&& treasury_found is Some && (treasury_found->0).0 == self.treasury.key
        &&& self.admin.is_writable
    }

    /// Finds the first constraint that these accounts break.
    pub fn check(
        &self,
        config_found: Option<(Pubkey, u8)>,
        vault_ata_pda: Option<Pubkey>,
        treasury_ata_pda: Option<Pubkey>,
        vault_found: Option<(Pubkey, u8)>,
        treasury_found: Option<(Pubkey, u8)>,
    ) -> (r: Option<AccountError>)
        ensures
            r == self.refusal(
                config_found,
                vault_ata_pda,
                treasury_ata_pda,
                vault_found,
                treasury_found,
            ),
            r is None <==> self.accepted(
                config_found,
                vault_ata_pda,
                treasury_ata_pda,
                vault_found,
                treasury_found,
            ),
    {
        if !self.admin.is_signer {
            Some(AccountError::NotSigner)
        } else if config_found.is_none() {
            Some(AccountError::NoBump)
        } else if !found_at(&config_found, &self.config.info.key) {
            Some(AccountError::Seeds)
        } else if !self.config.info.is_writable {
            Some(AccountError::Mut)
        } else if !(self.vault_ata.info.owner == self.token_program.key) {
            Some(AccountError::AssociatedTokenProgram)
        } else if !(self.vault_ata.data.owner == self.vault.key) {
            Some(AccountError::TokenOwner)
        } else if vault_ata_pda.is_none() {
            Some(AccountError::NoBump)
        } else if !is_at(&vault_ata_pda, &self.vault_ata.info.key) {
            Some(AccountError::Associated)
        } else if !self.vault_ata.info.is_writable {
            Some(AccountError::Mut)
        } else if !(self.treasury_ata.info.owner == self.token_program.key) {
            Some(AccountError::AssociatedTokenProgram)
        } else if !(self.treasury_ata.data.owner == self.treasury.key) {
            Some(AccountError::TokenOwner)
        } else if treasury_ata_pda.is_none() {
            Some(AccountError::NoBump)
        } else if !is_at(&treasury_ata_pda, &self.treasury_ata.info.key) {
            Some(AccountError::Associated)
        } else if !self.treasury_ata.info.is_writable {
            Some(AccountError::Mut)
        } else if vault_found.is_none() {
            Some(AccountError::NoBump)
        } else if !found_at(&vault_found, &self.vault.key) {
            Some(AccountError::Seeds)
        } else if treasury_found.is_none() {
            Some(AccountError::NoBump)
        } else if !found_at(&treasury_found, &self.treasury.key) {
            Some(AccountError::Seeds)
        } else if !self.admin.is_writable {
            Some(AccountError::Mut)
        } else {
            None
        }
    }

    /// The first constraint that these accounts break under `program_id`.
    pub open spec fn refused(self, program_id: Pubkey) -> Option<AccountError> {
        self.refusal(
            Pda::Config.found(program_id),
            crate::pda::associated_token_pda(
                self.vault.key,
                self.mint.info.key,
                self.token_program.key,
            ),
            crate::pda::associated_token_pda(
                self.treasury.key,
                self.mint.info.key,
                self.token_program.key,
            ),
            Pda::Vault.found(program_id),
            Pda::Treasury.found(program_id),
        )
    }

    /// The context of these accounts: with the bumps found for its addresses.
    pub open spec fn context(self, program_id: Pubkey) -> Context<Self, InitializeBumps> {
        Context {
            program_id,
            accounts: self,
            bumps: InitializeBumps {
                config: (Pda::Config.found(program_id)->0).1,
                vault: (Pda::Vault.found(program_id)->0).1,
                treasury: (Pda::Treasury.found(program_id)->0).1,
            },
        }
    }

    /// Checks the accounts; accepted ones become the context to run with. Its bumps
    /// create the addresses that they were found for.
    pub fn try_accounts(self, program_id: Pubkey) -> (r: Result<
        Context<Self, InitializeBumps>,
        AccountError,
    >)
        ensures
            r == (match self.refused(program_id) {
                Some(e) => Err::<Context<Self, InitializeBumps>, AccountError>(e),
                None => Ok(self.context(program_id)),
            }),
            r matches Ok(ctx) ==> {
                &&& Pda::Config.created(ctx.bumps.config, program_id) == Some(self.config.info.key)
                &&& Pda::Vault.created(ctx.bumps.vault, program_id) == Some(self.vault.key)
                &&& Pda::Treasury.created(ctx.bumps.treasury, program_id) == Some(self.treasury.key)
            },
    {
        let config_found: Option<(Pubkey, u8)> = Pda::Config.find(&program_id);
        let vault_ata_pda: Option<Pubkey> = associated_token_address(
            &self.vault.key,
            &self.mint.info.key,
            &self.token_program.key,
        );
        let treasury_ata_pda: Option<Pubkey> = associated_token_address(
            &self.treasury.key,
            &self.mint.info.key,
            &self.token_program.key,
        );
        let vault_found: Option<(Pubkey, u8)> = Pda::Vault.find(&program_id);
        let treasury_found: Option<(Pubkey, u8)> = Pda::Treasury.find(&program_id);
        match self.check(
            config_found,
            vault_ata_pda,
            treasury_ata_pda,
            vault_found,
            treasury_found,
        ) {
            Some(e) => Err(e),
            None => match (config_found, vault_found, treasury_found) {
                (Some((_, config)), Some((_, vault)), Some((_, treasury))) => Ok(
                    Context {
                        program_id,
                        accounts: self,
                        bumps: InitializeBumps { config, vault, treasury },
                    },
                ),
                _ => Err(AccountError::NoBump),
            },
        }
    }
}

/// The accounts of an instruction that only changes the configuration.
#[derive(Clone, Copy, Debug, PartialEq, Eq)]
pub struct AdminOnly {
    pub config: Account<Config>,
    pub admin: AccountInfo,
}

impl AdminOnly {
    /// The first constraint that these accounts break, given the addresses that
    /// the seeds derive, or `None` if they break none.
    pub open spec fn refusal(self, config_pda: Option<Pubkey>) -> Option<AccountError> {
        if !self.admin.is_signer {
            Some(AccountError::NotSigner)
        } else if config_pda != Some(self.config.info.key) {
            Some(AccountError::Seeds)
        } else if !self.config.info.is_writable {
            Some(AccountError::Mut)
        } else if self.config.data.admin != self.admin.key {
            Some(AccountError::HasOne)
        } else {
            None
        }
    }

    /// These accounts keep every constraint.
    pub open spec fn accepted(self, config_pda: Option<Pubkey>) -> bool {
        &&& self.admin.is_signer
        &&& config_pda == Some(self.config.info.key)
        &&& self.config.info.is_writable
        &&& self.config.data.admin == self.admin.key
    }

    /// Finds the first constraint that these accounts break.
    pub fn check(&self, config_pda: Option<Pubkey>) -> (r: Option<AccountError>)
        ensures
            r == self.refusal(config_pda),
            r is None <==> self.accepted(config_pda),
    {
        if !self.admin.is_signer {
            Some(AccountError::NotSigner)
        } else if !is_at(&config_pda, &self.config.info.key) {
            Some(AccountError::Seeds)
        } else if !self.config.info.is_writable {
            Some(AccountError::Mut)
        } else if !(self.config.data.admin == self.admin.key) {
            Some(AccountError::HasOne)
        } else {
            None
        }
    }

    /// The first constraint that these accounts break under `program_id`.
    pub open spec fn refused(self, program_id: Pubkey) -> Option<AccountError> {
        self.refusal(
            Pda::Config.created(self.config.data.bump, program_id),
        )
    }

    /// Checks the accounts; accepted ones become the context to run with.
    pub fn try_accounts(self, program_id: Pubkey) -> (r: Result<Context<Self, ()>, AccountError>)
        ensures
            r == (match self.refused(program_id) {
                Some(e) => Err::<Context<Self, ()>, AccountError>(e),
                None => Ok(Context { program_id, accounts: self, bumps: () }),
            }),
    {
        let config_pda: Option<Pubkey> = Pda::Config.create(self.config.data.bump, &program_id);
        match self.check(config_pda) {
            Some(e) => Err(e),
            None => Ok(Context { program_id, accounts: self, bumps: () }),
        }
    }
}

/// The accounts of `seed_vault`.
#[derive(Clone, Copy, Debug, PartialEq, Eq)]
pub struct SeedVault {
    pub config: Account<Config>,
    pub source_ata: Account<TokenAccount>,
    pub vault_ata: Account<TokenAccount>,
    pub vault: AccountInfo,
    pub admin: AccountInfo,
    pub mint: Account<Mint>,
    pub token_program: AccountInfo,
}

impl SeedVault {
    /// The first constraint that these accounts break, given the addresses that
    /// the seeds derive, or `None` if they break none.
    pub open spec fn refusal(
        self,
        config_pda: Option<Pubkey>,
        vault_pda: Option<Pubkey>,
    ) -> Option<AccountError> {
        if !self.admin.is_signer {
            Some(AccountError::NotSigner)
        } else if config_pda != Some(self.config.info.key) {
            Some(AccountError::Seeds)
        } else if self.config.data.admin != self.admin.key {
            Some(AccountError::HasOne)
        } else if !self.source_ata.info.is_writable {
            Some(AccountError::Mut)
        } else if self.source_ata.data.mint != self.config.data.mint {
            Some(AccountError::TokenMint)
        } else if !self.vault_ata.info.is_writable {
            Some(AccountError::Mut)
        } else if self.vault_ata.data.owner != self.vault.key {
            Some(AccountError::TokenOwner)
        } else if self.vault_ata.data.mint != self.config.data.mint {
            Some(AccountError::TokenMint)
        } else if vault_pda != Some(self.vault.key) {
            Some(AccountError::Seeds)
        } else if self.mint.info.key != self.config.data.mint {
            Some(AccountError::Address)
        } else {
            None
        }
    }

    /// These accounts keep every constraint.
    pub open spec fn accepted(self, config_pda: Option<Pubkey>, vault_pda: Option<Pubkey>) -> bool {
        &&& self.admin.is_signer
        &&& config_pda == Some(self.config.info.key)
        &&& self.config.data.admin == self.admin.key
        &&& self.source_ata.info.is_writable
        &&& self.source_ata.data.mint == self.config.data.mint
        &&& self.vault_ata.info.is_writable
        &&& self.vault_ata.held_by(self.vault.key, self.config.data.mint)
        &&& vault_pda == Some(self.vault.key)
        &&& self.mint.info.key == self.config.data.mint
    }

    /// Finds the first constraint that these accounts break.
    pub fn check(
        &self,
        config_pda: Option<Pubkey>,
        vault_pda: Option<Pubkey>,
    ) -> (r: Option<AccountError>)
        ensures
            r == self.refusal(config_pda, vault_pda),
            r is None <==> self.accepted(config_pda, vault_pda),
    {
        if !self.admin.is_signer {
            Some(AccountError::NotSigner)
        } else if !is_at(&config_pda, &self.config.info.key) {
            Some(AccountError::Seeds)
        } else if !(self.config.data.admin == self.admin.key) {
            Some(AccountError::HasOne)
        } else if !self.source_ata.info.is_writable {
            Some(AccountError::Mut)
        } else if !(self.source_ata.data.mint == self.config.data.mint) {
            Some(AccountError::TokenMint)
        } else if !self.vault_ata.info.is_writable {
            Some(AccountError::Mut)
        } else if !(self.vault_ata.data.owner == self.vault.key) {
            Some(AccountError::TokenOwner)
        } else if !(self.vault_ata.data.mint == self.config.data.mint) {
            Some(AccountError::TokenMint)
        } else if !is_at(&vault_pda, &self.vault.key) {
            Some(AccountError::Seeds)
        } else if !(self.mint.info.key == self.config.data.mint) {
            Some(AccountError::Address)
        } else {
            None
        }
    }

    /// The first constraint that these accounts break under `program_id`.
    pub open spec fn refused(self, program_id: Pubkey) -> Option<AccountError> {
        self.refusal(
            Pda::Config.created(self.config.data.bump, program_id),
            Pda::Vault.created(self.config.data.vault_bump, program_id),
        )
    }

    /// Checks the accounts; accepted ones become the context to run with.
    pub fn try_accounts(self, program_id: Pubkey) -> (r: Result<Context<Self, ()>, AccountError>)
        ensures
            r == (match self.refused(program_id) {
                Some(e) => Err::<Context<Self, ()>, AccountError>(e),
                None => Ok(Context { program_id, accounts: self, bumps: () }),
            }),
    {
        let config_pda: Option<Pubkey> = Pda::Config.create(self.config.data.bump, &program_id);
        let vault_pda: Option<Pubkey> = Pda::Vault.create(self.config.data.vault_bump, &program_id);
        match self.check(config_pda, vault_pda) {
            Some(e) => Err(e),
            None => Ok(Context { program_id, accounts: self, bumps: () }),
        }
    }
}

/// The accounts of `withdraw_treasury`.
#[derive(Clone, Copy, Debug, PartialEq, Eq)]
pub struct WithdrawTreasury {
    pub config: Account<Config>,
    pub treasury_ata: Account<TokenAccount>,
    pub dest_ata: Account<TokenAccount>,
    pub treasury: AccountInfo,
    pub admin: AccountInfo,
    pub mint: Account<Mint>,
    pub token_program: AccountInfo,
}

impl WithdrawTreasury {
    /// The first constraint that these accounts break, given the addresses that
    /// the seeds derive, or `None` if they break none.
    pub open spec fn refusal(
        self,
        config_pda: Option<Pubkey>,
        treasury_pda: Option<Pubkey>,
    ) -> Option<AccountError> {
        if !self.admin.is_signer {
            Some(AccountError::NotSigner)
        } else if config_pda != Some(self.config.info.key) {
            Some(AccountError::Seeds)
        } else if self.config.data.admin != self.admin.key {
            Some(AccountError::HasOne)
        } else if !self.treasury_ata.info.is_writable {
            Some(AccountError::Mut)
        } else if self.treasury_ata.data.owner != self.treasury.key {
            Some(AccountError::TokenOwner)
        } else if self.treasury_ata.data.mint != self.config.data.mint {
            Some(AccountError::TokenMint)
        } else if !self.dest_ata.info.is_writable {
            Some(AccountError::Mut)
        } else if self.dest_ata.data.mint != self.config.data.mint {
            Some(AccountError::TokenMint)
        } else if treasury_pda != Some(self.treasury.key) {
            Some(AccountError::Seeds)
        } else if self.mint.info.key != self.config.data.mint {
            Some(AccountError::Address)
        } else {
            None
        }
    }

    /// These accounts keep every constraint.
    pub open spec fn accepted(
        self,
        config_pda: Option<Pubkey>,
        treasury_pda: Option<Pubkey>,
    ) -> bool {
        &&& self.admin.is_signer
        &&& config_pda == Some(self.config.info.key)
        &&& self.config.data.admin == self.admin.key
        &&& self.treasury_ata.info.is_writable
        &&& self.treasury_ata.held_by(self.treasury.key, self.config.data.mint)
        &&& self.dest_ata.info.is_writable
        &&& self.dest_ata.data.mint == self.config.data.mint
        &&& treasury_pda == Some(self.treasury.key)
        &&& self.mint.info.key == self.config.data.mint
    }

    /// Finds the first constraint that these accounts break.
    pub fn check(
        &self,
        config_pda: Option<Pubkey>,
        treasury_pda: Option<Pubkey>,
    ) -> (r: Option<AccountError>)
        ensures
            r == self.refusal(config_pda, treasury_pda),
            r is None <==> self.accepted(config_pda, treasury_pda),
    {
        if !self.admin.is_signer {
            Some(AccountError::NotSigner)
        } else if !is_at(&config_pda, &self.config.info.key) {
            Some(AccountError::Seeds)
        } else if !(self.config.data.admin == self.admin.key) {
            Some(AccountError::HasOne)
        } else if !self.treasury_ata.info.is_writable {
            Some(AccountError::Mut)
        } else if !(self.treasury_ata.data.owner == self.treasury.key) {
            Some(AccountError::TokenOwner)
        } else if !(self.treasury_ata.data.mint == self.config.data.mint) {
            Some(AccountError::TokenMint)
        } else if !self.dest_ata.info.is_writable {
            Some(AccountError::Mut)
        } else if !(self.dest_ata.data.mint == self.config.data.mint) {
            Some(AccountError::TokenMint)
        } else if !is_at(&treasury_pda, &self.treasury.key) {
            Some(AccountError::Seeds)
        } else if !(self.mint.info.key == self.config.data.mint) {
            Some(AccountError::Address)
        } else {
            None
        }
    }

    /// The first constraint that these accounts break under `program_id`.
    pub open spec fn refused(self, program_id: Pubkey) -> Option<AccountError> {
        self.refusal(
            Pda::Config.created(self.config.data.bump, program_id),
            Pda::Treasury.created(self.config.data.treasury_bump, program_id),
        )
    }

    /// Checks the accounts; accepted ones become the context to run with.
    pub fn try_accounts(self, program_id: Pubkey) -> (r: Result<Context<Self, ()>, AccountError>)
        ensures
            r == (match self.refused(program_id) {
                Some(e) => Err::<Context<Self, ()>, AccountError>(e),
                None => Ok(Context { program_id, accounts: self, bumps: () }),
            }),
    {
        let config_pda: Option<Pubkey> = Pda::Config.create(self.config.data.bump, &program_id);
        let treasury_pda: Option<Pubkey> = Pda::Treasury.create(
            self.config.data.treasury_bump,
            &program_id,
        );
        match self.check(config_pda, treasury_pda) {
            Some(e) => Err(e),
            None => Ok(Context { program_id, accounts: self, bumps: () }),
        }
    }
}

/// The accounts of `withdraw_vault`.
#[derive(Clone, Copy, Debug, PartialEq, Eq)]
pub struct WithdrawVault {
    pub config: Account<Config>,
    pub vault_ata: Account<TokenAccount>,
    pub dest_ata: Account<TokenAccount>,
    pub vault: AccountInfo,
    pub admin: AccountInfo,
    pub mint: Account<Mint>,
    pub token_program: AccountInfo,
}

impl WithdrawVault {
    /// The first constraint that these accounts break, given the addresses that
    /// the seeds derive, or `None` if they break none.
    pub open spec fn refusal(
        self,
        config_pda: Option<Pubkey>,
        vault_pda: Option<Pubkey>,
    ) -> Option<AccountError> {
        if !self.admin.is_signer {
            Some(AccountError::NotSigner)
        } else if config_pda != Some(self.config.info.key) {
            Some(AccountError::Seeds)
        } else if self.config.data.admin != self.admin.key {
            Some(AccountError::HasOne)
        } else if !self.vault_ata.info.is_writable {
            Some(AccountError::Mut)
        } else if self.vault_ata.data.owner != self.vault.key {
            Some(AccountError::TokenOwner)
        } else if self.vault_ata.data.mint != self.config.data.mint {
            Some(AccountError::TokenMint)
        } else if !self.dest_ata.info.is_writable {
            Some(AccountError::Mut)
        } else if self.dest_ata.data.mint != self.config.data.mint {
            Some(AccountError::TokenMint)
        } else if vault_pda != Some(self.vault.key) {
            Some(AccountError::Seeds)
        } else if self.mint.info.key != self.config.data.mint {
            Some(AccountError::Address)
        } else {
            None
        }
    }

    /// These accounts keep every constraint.
    pub open spec fn accepted(self, config_pda: Option<Pubkey>, vault_pda: Option<Pubkey>) -> bool {
        &&& self.admin.is_signer
        &&& config_pda == Some(self.config.info.key)
        &&& self.config.data.admin == self.admin.key
        &&& self.vault_ata.info.is_writable
        &&& self.vault_ata.held_by(self.vault.key, self.config.data.mint)
        &&& self.dest_ata.info.is_writable
        &&& self.dest_ata.data.mint == self.config.data.mint
        &&& vault_pda == Some(self.vault.key)
        &&& self.mint.info.key == self.config.data.mint
    }

    /// Finds the first constraint that these accounts break.
    pub fn check(
        &self,
        config_pda: Option<Pubkey>,
        vault_pda: Option<Pubkey>,
    ) -> (r: Option<AccountError>)
        ensures
            r == self.refusal(config_pda, vault_pda),
            r is None <==> self.accepted(config_pda, vault_pda),
    {
        if !self.admin.is_signer {
            Some(AccountError::NotSigner)
        } else if !is_at(&config_pda, &self.config.info.key) {
            Some(AccountError::Seeds)
        } else if !(self.config.data.admin == self.admin.key) {
            Some(AccountError::HasOne)
        } else if !self.vault_ata.info.is_writable {
            Some(AccountError::Mut)
        } else if !(self.vault_ata.data.owner == self.vault.key) {
            Some(AccountError::TokenOwner)
        } else if !(self.vault_ata.data.mint == self.config.data.mint) {
            Some(AccountError::TokenMint)
        } else if !self.dest_ata.info.is_writable {
            Some(AccountError::Mut)
        } else if !(self.dest_ata.data.mint == self.config.data.mint) {
            Some(AccountError::TokenMint)
        } else if !is_at(&vault_pda, &self.vault.key) {
            Some(AccountError::Seeds)
        } else if !(self.mint.info.key == self.config.data.mint) {
            Some(AccountError::Address)
        } else {
            None
        }
    }

    /// The first constraint that these accounts break under `program_id`.
    pub open spec fn refused(self, program_id: Pubkey) -> Option<AccountError> {
        self.refusal(
            Pda::Config.created(self.config.data.bump, program_id),
            Pda::Vault.created(self.config.data.vault_bump, program_id),
        )
    }

    /// Checks the accounts; accepted ones become the context to run with.
    pub fn try_accounts(self, program_id: Pubkey) -> (r: Result<Context<Self, ()>, AccountError>)
        ensures
            r == (match self.refused(program_id) {
                Some(e) => Err::<Context<Self, ()>, AccountError>(e),
                None => Ok(Context { program_id, accounts: self, bumps: () }),
            }),
    {
        let config_pda: Option<Pubkey> = Pda::Config.create(self.config.data.bump, &program_id);
        let vault_pda: Option<Pubkey> = Pda::Vault.create(self.config.data.vault_bump, &program_id);
        match self.check(config_pda, vault_pda) {
            Some(e) => Err(e),
            None => Ok(Context { program_id, accounts: self, bumps: () }),
        }
    }
}

/// The accounts of `close_treasury_ata`.
#[derive(Clone, Copy, Debug, PartialEq, Eq)]
pub struct CloseTreasuryAta {
    pub config: Account<Config>,
    pub treasury_ata: Account<TokenAccount>,
    pub treasury: AccountInfo,
    pub admin: AccountInfo,
    pub token_program: AccountInfo,
}

impl CloseTreasuryAta {
    /// The first constraint that these accounts break, given the addresses that
    /// the seeds derive, or `None` if they break none.
    pub open spec fn refusal(
        self,
        config_pda: Option<Pubkey>,
        treasury_pda: Option<Pubkey>,
    ) -> Option<AccountError> {
        if !self.admin.is_signer {
            Some(AccountError::NotSigner)
        } else if config_pda != Some(self.config.info.key) {
            Some(AccountError::Seeds)
        } else if self.config.data.admin != self.admin.key {
            Some(AccountError::HasOne)
        } else if !self.treasury_ata.info.is_writable {
            Some(AccountError::Mut)
        } else if self.treasury_ata.data.owner != self.treasury.key {
            Some(AccountError::TokenOwner)
        } else if self.treasury_ata.data.mint != self.config.data.mint {
            Some(AccountError::TokenMint)
        } else if treasury_pda != Some(self.treasury.key) {
            Some(AccountError::Seeds)
        } else if !self.admin.is_writable {
            Some(AccountError::Mut)
        } else {
            None
        }
    }

    /// These accounts keep every constraint.
    pub open spec fn accepted(
        self,
        config_pda: Option<Pubkey>,
        treasury_pda: Option<Pubkey>,
    ) -> bool {
        &&& self.admin.is_signer
        &&& config_pda == Some(self.config.info.key)
        &&& self.config.data.admin == self.admin.key
        &&& self.treasury_ata.info.is_writable
        &&& self.treasury_ata.held_by(self.treasury.key, self.config.data.mint)
        &&& treasury_pda == Some(self.treasury.key)
        &&& self.admin.is_writable
    }

    /// Finds the first constraint that these accounts break.
    pub fn check(
        &self,
        config_pda: Option<Pubkey>,
        treasury_pda: Option<Pubkey>,
    ) -> (r: Option<AccountError>)
        ensures
            r == self.refusal(config_pda, treasury_pda),
            r is None <==> self.accepted(config_pda, treasury_pda),
    {
        if !self.admin.is_signer {
            Some(AccountError::NotSigner)
        } else if !is_at(&config_pda, &self.config.info.key) {
            Some(AccountError::Seeds)
        } else if !(self.config.data.admin == self.admin.key) {
            Some(AccountError::HasOne)
        } else if !self.treasury_ata.info.is_writable {
            Some(AccountError::Mut)
        } else if !(self.treasury_ata.data.owner == self.treasury.key) {
            Some(AccountError::TokenOwner)
        } else if !(self.treasury_ata.data.mint == self.config.data.mint) {
            Some(AccountError::TokenMint)
        } else if !is_at(&treasury_pda, &self.treasury.key) {
            Some(AccountError::Seeds)
        } else if !self.admin.is_writable {
            Some(AccountError::Mut)
        } else {
            None
        }
    }

    /// The first constraint that these accounts break under `program_id`.
    pub open spec fn refused(self, program_id: Pubkey) -> Option<AccountError> {
        self.refusal(
            Pda::Config.created(self.config.data.bump, program_id),
            Pda::Treasury.created(self.config.data.treasury_bump, program_id),
        )
    }

    /// Checks the accounts; accepted ones become the context to run with.
    pub fn try_accounts(self, program_id: Pubkey) -> (r: Result<Context<Self, ()>, AccountError>)
        ensures
            r == (match self.refused(program_id) {
                Some(e) => Err::<Context<Self, ()>, AccountError>(e),
                None => Ok(Context { program_id, accounts: self, bumps: () }),
            }),
    {
        let config_pda: Option<Pubkey> = Pda::Config.create(self.config.data.bump, &program_id);
        let treasury_pda: Option<Pubkey> = Pda::Treasury.create(
            self.config.data.treasury_bump,
            &program_id,
        );
        match self.check(config_pda, treasury_pda) {
            Some(e) => Err(e),
            None => Ok(Context { program_id, accounts: self, bumps: () }),
        }
    }
}

/// The accounts of `close_vault_ata`.
#[derive(Clone, Copy, Debug, PartialEq, Eq)]
pub struct CloseVaultAta {
    pub config: Account<Config>,
    pub vault_ata: Account<TokenAccount>,
    pub vault: AccountInfo,
    pub admin: AccountInfo,
    pub token_program: AccountInfo,
}

impl CloseVaultAta {
    /// The first constraint that these accounts break, given the addresses that
    /// the seeds derive, or `None` if they break none.
    pub open spec fn refusal(
        self,
        config_pda: Option<Pubkey>,
        vault_pda: Option<Pubkey>,
    ) -> Option<AccountError> {
        if !self.admin.is_signer {
            Some(AccountError::NotSigner)
        } else if config_pda != Some(self.config.info.key) {
            Some(AccountError::Seeds)
        } else if self.config.data.admin != self.admin.key {
            Some(AccountError::HasOne)
        } else if !self.vault_ata.info.is_writable {
            Some(AccountError::Mut)
        } else if self.vault_ata.data.owner != self.vault.key {
            Some(AccountError::TokenOwner)
        } else if self.vault_ata.data.mint != self.config.data.mint {
            Some(AccountError::TokenMint)
        } else if vault_pda != Some(self.vault.key) {
            Some(AccountError::Seeds)
        } else if !self.admin.is_writable {
            Some(AccountError::Mut)
        } else {
            None
        }
    }

    /// These accounts keep every constraint.
    pub open spec fn accepted(self, config_pda: Option<Pubkey>, vault_pda: Option<Pubkey>) -> bool {
        &&& self.admin.is_signer
        &&& config_pda == Some(self.config.info.key)
        &&& self.config.data.admin == self.admin.key
        &&& self.vault_ata.info.is_writable
        &&& self.vault_ata.held_by(self.vault.key, self.config.data.mint)
        &&& vault_pda == Some(self.vault.key)
        &&& self.admin.is_writable
    }

    /// Finds the first constraint that these accounts break.
    pub fn check(
        &self,
        config_pda: Option<Pubkey>,
        vault_pda: Option<Pubkey>,
    ) -> (r: Option<AccountError>)
        ensures
            r == self.refusal(config_pda, vault_pda),
            r is None <==> self.accepted(config_pda, vault_pda),
    {
        if !self.admin.is_signer {
            Some(AccountError::NotSigner)
        } else if !is_at(&config_pda, &self.config.info.key) {
            Some(AccountError::Seeds)
        } else if !(self.config.data.admin == self.admin.key) {
            Some(AccountError::HasOne)
        } else if !self.vault_ata.info.is_writable {
            Some(AccountError::Mut)
        } else if !(self.vault_ata.data.owner == self.vault.key) {
            Some(AccountError::TokenOwner)
        } else if !(self.vault_ata.data.mint == self.config.data.mint) {
            Some(AccountError::TokenMint)
        } else if !is_at(&vault_pda, &self.vault.key) {
            Some(AccountError::Seeds)
        } else if !self.admin.is_writable {
            Some(AccountError::Mut)
        } else {
            None
        }
    }

    /// The first constraint that these accounts break under `program_id`.
    pub open spec fn refused(self, program_id: Pubkey) -> Option<AccountError> {
        self.refusal(
            Pda::Config.created(self.config.data.bump, program_id),
            Pda::Vault.created(self.config.data.vault_bump, program_id),
        )
    }

    /// Checks the accounts; accepted ones become the context to run with.
    pub fn try_accounts(self, program_id: Pubkey) -> (r: Result<Context<Self, ()>, AccountError>)
        ensures
            r == (match self.refused(program_id) {
                Some(e) => Err::<Context<Self, ()>, AccountError>(e),
                None => Ok(Context { program_id, accounts: self, bumps: () }),
            }),
    {
        let config_pda: Option<Pubkey> = Pda::Config.create(self.config.data.bump, &program_id);
        let vault_pda: Option<Pubkey> = Pda::Vault.create(self.config.data.vault_bump, &program_id);
        match self.check(config_pda, vault_pda) {
            Some(e) => Err(e),
            None => Ok(Context { program_id, accounts: self, bumps: () }),
        }
    }
}

/// The accounts of `close_config`.
#[derive(Clone, Copy, Debug, PartialEq, Eq)]
pub struct CloseConfig {
    pub config: Account<Config>,
    pub admin: AccountInfo,
}

impl CloseConfig {
    /// The first constraint that these accounts break, given the addresses that
    /// the seeds derive, or `None` if they break none.
    pub open spec fn refusal(self, config_pda: Option<Pubkey>) -> Option<AccountError> {
        if !self.admin.is_signer {
            Some(AccountError::NotSigner)
        } else if config_pda != Some(self.config.info.key) {
            Some(AccountError::Seeds)
        } else if !self.config.info.is_writable {
            Some(AccountError::Mut)
        } else if self.config.data.admin != self.admin.key {
            Some(AccountError::HasOne)
        } else if self.config.info.key == self.admin.key {
            Some(AccountError::Close)
        } else if !self.admin.is_writable {
            Some(AccountError::Mut)
        } else {
            None
        }
    }

    /// These accounts keep every constraint.
    pub open spec fn accepted(self, config_pda: Option<Pubkey>) -> bool {
        &&& self.admin.is_signer
        &&& config_pda == Some(self.config.info.key)
        &&& self.config.info.is_writable
        &&& self.config.data.admin == self.admin.key
        &&& self.config.info.key != self.admin.key
        &&& self.admin.is_writable
    }

    /// Finds the first constraint that these accounts break.
    pub fn check(&self, config_pda: Option<Pubkey>) -> (r: Option<AccountError>)
        ensures
            r == self.refusal(config_pda),
            r is None <==> self.accepted(config_pda),
    {
        if !self.admin.is_signer {
            Some(AccountError::NotSigner)
        } else if !is_at(&config_pda, &self.config.info.key) {
            Some(AccountError::Seeds)
        } else if !self.config.info.is_writable {
            Some(AccountError::Mut)
        } else if !(self.config.data.admin == self.admin.key) {
            Some(AccountError::HasOne)
        } else if self.config.info.key == self.admin.key {
            Some(AccountError::Close)
        } else if !self.admin.is_writable {
            Some(AccountError::Mut)
        } else {
            None
        }
    }

    /// The first constraint that these accounts break under `program_id`.
    pub open spec fn refused(self, program_id: Pubkey) -> Option<AccountError> {
        self.refusal(
            Pda::Config.created(self.config.data.bump, program_id),
        )
    }

    /// Checks the accounts; accepted ones become the context to run with.
    pub fn try_accounts(self, program_id: Pubkey) -> (r: Result<Context<Self, ()>, AccountError>)
        ensures
            r == (match self.refused(program_id) {
                Some(e) => Err::<Context<Self, ()>, AccountError>(e),
                None => Ok(Context { program_id, accounts: self, bumps: () }),
            }),
    {
        let config_pda: Option<Pubkey> = Pda::Config.create(self.config.data.bump, &program_id);
        match self.check(config_pda) {
            Some(e) => Err(e),
            None => Ok(Context { program_id, accounts: self, bumps: () }),
        }
    }
}

/// The bumps found for the derived addresses of `StartArena`.
#[derive(Clone, Copy, Debug, PartialEq, Eq)]
pub struct StartArenaBumps {
    pub session: u8,
    pub escrow: u8,
}

/// The accounts of `start_session_arena`: the session and the escrow token
/// account are new, and the player pays for them.
#[derive(Clone, Copy, Debug, PartialEq, Eq)]
pub struct StartArena {
    pub config: Account<Config>,
    pub session: Account<Session>,
    pub player_ata: Account<TokenAccount>,
    pub treasury_ata: Account<TokenAccount>,
    pub treasury: AccountInfo,
    pub escrow: AccountInfo,
    pub escrow_ata: Account<TokenAccount>,
    pub mint: Account<Mint>,
    pub player: AccountInfo,
    pub token_program: AccountInfo,
}

impl StartArena {
    /// The first constraint that these accounts break, given the addresses that
    /// the seeds derive, or `None` if they break none.
    pub open spec fn refusal(
        self,
        session_found: Option<(Pubkey, u8)>,
        escrow_ata_pda: Option<Pubkey>,
        config_pda: Option<Pubkey>,
        treasury_pda: Option<Pubkey>,
        escrow_found: Option<(Pubkey, u8)>,
    ) -> Option<AccountError> {
        if !self.player.is_signer {
            Some(AccountError::NotSigner)
        } else if session_found is None {
            Some(AccountError::NoBump)
        } else if (session_found->0).0 != self.session.info.key {
            Some(AccountError::Seeds)
        } else if !self.session.info.is_writable {
            Some(AccountError::Mut)
        } else if self.escrow_ata.info.owner != self.token_program.key {
            Some(AccountError::AssociatedTokenProgram)
        } else if self.escrow_ata.data.owner != self.escrow.key {
            Some(AccountError::TokenOwner)
        } else if escrow_ata_pda is None {
            Some(AccountError::NoBump)
        } else if escrow_ata_pda != Some(self.escrow_ata.info.key) {
            Some(AccountError::Associated)
        } else if !self.escrow_ata.info.is_writable {
            Some(AccountError::Mut)
        } else if config_pda != Some(self.config.info.key) {
            Some(AccountError::Seeds)
        } else if !self.player_ata.info.is_writable {
            Some(AccountError::Mut)
        } else if self.player_ata.data.owner != self.player.key {
            Some(AccountError::TokenOwner)
        } else if self.player_ata.data.mint != self.config.data.mint {
            Some(AccountError::TokenMint)
        } else if !self.treasury_ata.info.is_writable {
            Some(AccountError::Mut)
        } else if self.treasury_ata.data.owner != self.treasury.key {
            Some(AccountError::TokenOwner)
        } else if self.treasury_ata.data.mint != self.config.data.mint {
            Some(AccountError::TokenMint)
        } else if treasury_pda != Some(self.treasury.key) {
            Some(AccountError::Seeds)
        } else if escrow_found is None {
            Some(AccountError::NoBump)
        } else if (escrow_found->0).0 != self.escrow.key {
            Some(AccountError::Seeds)
        } else if !self.mint.info.is_writable {
            Some(AccountError::Mut)
        } else if self.mint.info.key != self.config.data.mint {
            Some(AccountError::Address)
        } else if !self.player.is_writable {
            Some(AccountError::Mut)
        } else {
            None
        }
    }

    /// These accounts keep every constraint.
    pub open spec fn accepted(
        self,
        session_found: Option<(Pubkey, u8)>,
        escrow_ata_pda: Option<Pubkey>,
        config_pda: Option<Pubkey>,
        treasury_pda: Option<Pubkey>,
        escrow_found: Option<(Pubkey, u8)>,
    ) -> bool {
        &&& self.player.is_signer
        &&& session_found is Some && (session_found->0).0 == self.session.info.key
        &&& self.session.info.is_writable
        &&& self.escrow_ata.info.owner == self.token_program.key
        &&& self.escrow_ata.data.owner == self.escrow.key
        &&& escrow_ata_pda == Some(self.escrow_ata.info.key)
        &&& self.escrow_ata.info.is_writable
        &&& config_pda == Some(self.config.info.key)
        &&& self.player_ata.info.is_writable
        &&& self.player_ata.held_by(self.player.key, self.config.data.mint)
        &&& self.treasury_ata.info.is_writable
        &&& self.treasury_ata.held_by(self.treasury.key, self.config.data.mint)
        &&& treasury_pda == Some(self.treasury.key)
        &&& escrow_found is Some && (escrow_found->0).0 == self.escrow.key
        &&& self.mint.info.is_writable
        &&& self.mint.info.key == self.config.data.mint
        &&& self.player.is_writable
    }

    /// Finds the first constraint that these accounts break.
    pub fn check(
        &self,
        session_found: Option<(Pubkey, u8)>,
        escrow_ata_pda: Option<Pubkey>,
        config_pda: Option<Pubkey>,
        treasury_pda: Option<Pubkey>,
        escrow_found: Option<(Pubkey, u8)>,
    ) -> (r: Option<AccountError>)
        ensures
            r == self.refusal(
                session_found,
                escrow_ata_pda,
                config_pda,
                treasury_pda,
                escrow_found,
            ),
            r is None <==> self.accepted(
                session_found,
                escrow_ata_pda,
                config_pda,
                treasury_pda,
                escrow_found,
            ),
    {
        if !self.player.is_signer {
            Some(AccountError::NotSigner)
        } else if session_found.is_none() {
            Some(AccountError::NoBump)
        } else if !found_at(&session_found, &self.session.info.key) {
            Some(AccountError::Seeds)
        } else if !self.session.info.is_writable {
            Some(AccountError::Mut)
        } else if !(self.escrow_ata.info.owner == self.token_program.key) {
            Some(AccountError::AssociatedTokenProgram)
        } else if !(self.escrow_ata.data.owner == self.escrow.key) {
            Some(AccountError::TokenOwner)
        } else if escrow_ata_pda.is_none() {
            Some(AccountError::NoBump)
        } else if !is_at(&escrow_ata_pda, &self.escrow_ata.info.key) {
            Some(AccountError::Associated)
        } else if !self.escrow_ata.info.is_writable {
            Some(AccountError::Mut)
        } else if !is_at(&config_pda, &self.config.info.key) {
            Some(AccountError::Seeds)
        } else if !self.player_ata.info.is_writable {
            Some(AccountError::Mut)
        } else if !(self.player_ata.data.owner == self.player.key) {
            Some(AccountError::TokenOwner)
        } else if !(self.player_ata.data.mint == self.config.data.mint) {
            Some(AccountError::TokenMint)
        } else if !self.treasury_ata.info.is_writable {
            Some(AccountError::Mut)
        } else if !(self.treasury_ata.data.owner == self.treasury.key) {
            Some(AccountError::TokenOwner)
        } else if !(self.treasury_ata.data.mint == self.config.data.mint) {
            Some(AccountError::TokenMint)
        } else if !is_at(&treasury_pda, &self.treasury.key) {
            Some(AccountError::Seeds)
        } else if escrow_found.is_none() {
            Some(AccountError::NoBump)
        } else if !found_at(&escrow_found, &self.escrow.key) {
            Some(AccountError::Seeds)
        } else if !self.mint.info.is_writable {
            Some(AccountError::Mut)
        } else if !(self.mint.info.key == self.config.data.mint) {
            Some(AccountError::Address)
        } else if !self.player.is_writable {
            Some(AccountError::Mut)
        } else {
            None
        }
    }

    /// The first constraint that these accounts break under `program_id`.
    pub open spec fn refused(self, program_id: Pubkey, session_id: u64) -> Option<AccountError> {
        self.refusal(
            Pda::Session { player: self.player.key, session_id }.found(program_id),
            crate::pda::associated_token_pda(
                self.escrow.key,
                self.mint.info.key,
                self.token_program.key,
            ),
            Pda::Config.created(self.config.data.bump, program_id),
            Pda::Treasury.created(self.config.data.treasury_bump, program_id),
            Pda::Escrow { player: self.player.key, session_id }.found(program_id),
        )
    }

    /// The context of these accounts: with the bumps found for its addresses.
    pub open spec fn context(self, program_id: Pubkey, session_id: u64) -> Context<
        Self,
        StartArenaBumps,
    > {
        Context {
            program_id,
            accounts: self,
            bumps: StartArenaBumps {
                session: (Pda::Session { player: self.player.key, session_id }.found(
                    program_id,
                )->0).1,
                escrow: (Pda::Escrow { player: self.player.key, session_id }.found(
                    program_id,
                )->0).1,
            },
        }
    }

    /// Checks the accounts; accepted ones become the context to run with. Its bumps
    /// create the addresses that they were found for.
    pub fn try_accounts(self, program_id: Pubkey, session_id: u64) -> (r: Result<
        Context<Self, StartArenaBumps>,
        AccountError,
    >)
        ensures
            r == (match self.refused(program_id, session_id) {
                Some(e) => Err::<Context<Self, StartArenaBumps>, AccountError>(e),
                None => Ok(self.context(program_id, session_id)),
            }),
            r matches Ok(ctx) ==> {
                &&& Pda::Session { player: self.player.key, session_id }.created(
                    ctx.bumps.session,
                    program_id,
                ) == Some(self.session.info.key)
                &&& Pda::Escrow { player: self.player.key, session_id }.created(
                    ctx.bumps.escrow,
                    program_id,
                ) == Some(self.escrow.key)
            },
    {
        let session_found: Option<(Pubkey, u8)> = Pda::Session {
            player: self.player.key,
            session_id,
        }.find(&program_id);
        let escrow_ata_pda: Option<Pubkey> = associated_token_address(
            &self.escrow.key,
            &self.mint.info.key,
            &self.token_program.key,
        );
        let config_pda: Option<Pubkey> = Pda::Config.create(self.config.data.bump, &program_id);
        let treasury_pda: Option<Pubkey> = Pda::Treasury.create(
            self.config.data.treasury_bump,
            &program_id,
        );
        let escrow_found: Option<(Pubkey, u8)> = Pda::Escrow {
            player: self.player.key,
            session_id,
        }.find(&program_id);
        match self.check(session_found, escrow_ata_pda, config_pda, treasury_pda, escrow_found) {
            Some(e) => Err(e),
            None => match (session_found, escrow_found) {
                (Some((_, session)), Some((_, escrow))) => Ok(
                    Context {
                        program_id,
                        accounts: self,
                        bumps: StartArenaBumps { session, escrow },
                    },
                ),
                _ => Err(AccountError::NoBump),
            },
        }
    }
}

/// The accounts of `finalize_arena`. The player does not sign: a player who lost
/// cannot strand the stake by refusing to.
#[derive(Clone, Copy, Debug, PartialEq, Eq)]
pub struct FinalizeArena {
    pub config: Account<Config>,
    pub session: Account<Session>,
    pub player_ata: Account<TokenAccount>,
    pub escrow: AccountInfo,
    pub escrow_ata: Account<TokenAccount>,
    pub vault: AccountInfo,
    pub vault_ata: Account<TokenAccount>,
    pub mint: Account<Mint>,
    pub player: AccountInfo,
    /// The backend signer that attests the result.
    pub outcome_authority: AccountInfo,
    pub token_program: AccountInfo,
}

impl FinalizeArena {
    /// The first constraint that these accounts break, given the addresses that
    /// the seeds derive, or `None` if they break none.
    pub open spec fn refusal(
        self,
        config_pda: Option<Pubkey>,
        session_pda: Option<Pubkey>,
        escrow_pda: Option<Pubkey>,
        vault_pda: Option<Pubkey>,
    ) -> Option<AccountError> {
        if !self.outcome_authority.is_signer {
            Some(AccountError::NotSigner)
        } else if config_pda != Some(self.config.info.key) {
            Some(AccountError::Seeds)
        } else if session_pda != Some(self.session.info.key) {
            Some(AccountError::Seeds)
        } else if !self.session.info.is_writable {
            Some(AccountError::Mut)
        } else if self.session.data.player != self.player.key {
            Some(AccountError::HasOne)
        } else if !self.player_ata.info.is_writable {
            Some(AccountError::Mut)
        } else if self.player_ata.data.owner != self.player.key {
            Some(AccountError::TokenOwner)
        } else if self.player_ata.data.mint != self.config.data.mint {
            Some(AccountError::TokenMint)
        } else if escrow_pda != Some(self.escrow.key) {
            Some(AccountError::Seeds)
        } else if !self.escrow_ata.info.is_writable {
            Some(AccountError::Mut)
        } else if self.escrow_ata.data.owner != self.escrow.key {
            Some(AccountError::TokenOwner)
        } else if self.escrow_ata.data.mint != self.config.data.mint {
            Some(AccountError::TokenMint)
        } else if vault_pda != Some(self.vault.key) {
            Some(AccountError::Seeds)
        } else if !self.vault_ata.info.is_writable {
            Some(AccountError::Mut)
        } else if self.vault_ata.data.owner != self.vault.key {
            Some(AccountError::TokenOwner)
        } else if self.vault_ata.data.mint != self.config.data.mint {
            Some(AccountError::TokenMint)
        } else if !self.mint.info.is_writable {
            Some(AccountError::Mut)
        } else if self.mint.info.key != self.config.data.mint {
            Some(AccountError::Address)
        } else if self.outcome_authority.key != self.config.data.outcome_authority {
            Some(AccountError::Address)
        } else {
            None
        }
    }

    /// These accounts keep every constraint.
    pub open spec fn accepted(
        self,
        config_pda: Option<Pubkey>,
        session_pda: Option<Pubkey>,
        escrow_pda: Option<Pubkey>,
        vault_pda: Option<Pubkey>,
    ) -> bool {
        &&& self.outcome_authority.is_signer
        &&& config_pda == Some(self.config.info.key)
        &&& session_pda == Some(self.session.info.key)
        &&& self.session.info.is_writable
        &&& self.session.data.player == self.player.key
        &&& self.player_ata.info.is_writable
        &&& self.player_ata.held_by(self.player.key, self.config.data.mint)
        &&& escrow_pda == Some(self.escrow.key)
        &&& self.escrow_ata.info.is_writable
        &&& self.escrow_ata.held_by(self.escrow.key, self.config.data.mint)
        &&& vault_pda == Some(self.vault.key)
        &&& self.vault_ata.info.is_writable
        &&& self.vault_ata.held_by(self.vault.key, self.config.data.mint)
        &&& self.mint.info.is_writable
        &&& self.mint.info.key == self.config.data.mint
        &&& self.outcome_authority.key == self.config.data.outcome_authority
    }

    /// Finds the first constraint that these accounts break.
    pub fn check(
        &self,
        config_pda: Option<Pubkey>,
        session_pda: Option<Pubkey>,
        escrow_pda: Option<Pubkey>,
        vault_pda: Option<Pubkey>,
    ) -> (r: Option<AccountError>)
        ensures
            r == self.refusal(config_pda, session_pda, escrow_pda, vault_pda),
            r is None <==> self.accepted(config_pda, session_pda, escrow_pda, vault_pda),
    {
        if !self.outcome_authority.is_signer {
            Some(AccountError::NotSigner)
        } else if !is_at(&config_pda, &self.config.info.key) {
            Some(AccountError::Seeds)
        } else if !is_at(&session_pda, &self.session.info.key) {
            Some(AccountError::Seeds)
        } else if !self.session.info.is_writable {
            Some(AccountError::Mut)
        } else if !(self.session.data.player == self.player.key) {
            Some(AccountError::HasOne)
        } else if !self.player_ata.info.is_writable {
            Some(AccountError::Mut)
        } else if !(self.player_ata.data.owner == self.player.key) {
            Some(AccountError::TokenOwner)
        } else if !(self.player_ata.data.mint == self.config.data.mint) {
            Some(AccountError::TokenMint)
        } else if !is_at(&escrow_pda, &self.escrow.key) {
            Some(AccountError::Seeds)
        } else if !self.escrow_ata.info.is_writable {
            Some(AccountError::Mut)
        } else if !(self.escrow_ata.data.owner == self.escrow.key) {
            Some(AccountError::TokenOwner)
        } else if !(self.escrow_ata.data.mint == self.config.data.mint) {
            Some(AccountError::TokenMint)
        } else if !is_at(&vault_pda, &self.vault.key) {
            Some(AccountError::Seeds)
        } else if !self.vault_ata.info.is_writable {
            Some(AccountError::Mut)
        } else if !(self.vault_ata.data.owner == self.vault.key) {
            Some(AccountError::TokenOwner)
        } else if !(self.vault_ata.data.mint == self.config.data.mint) {
            Some(AccountError::TokenMint)
        } else if !self.mint.info.is_writable {
            Some(AccountError::Mut)
        } else if !(self.mint.info.key == self.config.data.mint) {
            Some(AccountError::Address)
        } else if !(self.outcome_authority.key == self.config.data.outcome_authority) {
            Some(AccountError::Address)
        } else {
            None
        }
    }

    /// The first constraint that these accounts break under `program_id`.
    pub open spec fn refused(self, program_id: Pubkey) -> Option<AccountError> {
        self.refusal(
            Pda::Config.created(self.config.data.bump, program_id),
            Pda::Session {
                player: self.player.key,
                session_id: self.session.data.session_id,
            }.created(self.session.data.bump, program_id),
            Pda::Escrow {
                player: self.player.key,
                session_id: self.session.data.session_id,
            }.created(self.session.data.escrow_bump, program_id),
            Pda::Vault.created(self.config.data.vault_bump, program_id),
        )
    }

    /// Checks the accounts; accepted ones become the context to run with.
    pub fn try_accounts(self, program_id: Pubkey) -> (r: Result<Context<Self, ()>, AccountError>)
        ensures
            r == (match self.refused(program_id) {
                Some(e) => Err::<Context<Self, ()>, AccountError>(e),
                None => Ok(Context { program_id, accounts: self, bumps: () }),
            }),
    {
        let config_pda: Option<Pubkey> = Pda::Config.create(self.config.data.bump, &program_id);
        let session_pda: Option<Pubkey> = Pda::Session {
            player: self.player.key,
            session_id: self.session.data.session_id,
        }.create(self.session.data.bump, &program_id);
        let escrow_pda: Option<Pubkey> = Pda::Escrow {
            player: self.player.key,
            session_id: self.session.data.session_id,
        }.create(self.session.data.escrow_bump, &program_id);
        let vault_pda: Option<Pubkey> = Pda::Vault.create(self.config.data.vault_bump, &program_id);
        match self.check(config_pda, session_pda, escrow_pda, vault_pda) {
            Some(e) => Err(e),
            None => Ok(Context { program_id, accounts: self, bumps: () }),
        }
    }
}

/// The bumps found for the derived addresses of `MintEndingNft`.
#[derive(Clone, Copy, Debug, PartialEq, Eq)]
pub struct MintEndingNftBumps {
    pub receipt: u8,
}

/// The accounts of `mint_ending_nft`: the receipt is new, and the player pays
/// for it.
#[derive(Clone, Copy, Debug, PartialEq, Eq)]
pub struct MintEndingNft {
    pub config: Account<Config>,
    pub receipt: Account<NftReceipt>,
    pub player_ata: Account<TokenAccount>,
    pub mint: Account<Mint>,
    pub player: AccountInfo,
    /// The backend signer that attests the ending.
    pub outcome_authority: AccountInfo,
    /// The new asset, which signs its own creation.
    pub asset: AccountInfo,
    /// The asset program.
    pub mpl_core: AccountInfo,
    pub token_program: AccountInfo,
}

impl MintEndingNft {
    /// The first constraint that these accounts break, given the addresses that
    /// the seeds derive, or `None` if they break none.
    pub open spec fn refusal(
        self,
        receipt_found: Option<(Pubkey, u8)>,
        config_pda: Option<Pubkey>,
    ) -> Option<AccountError> {
        if !self.player.is_signer {
            Some(AccountError::NotSigner)
        } else if !self.outcome_authority.is_signer {
            Some(AccountError::NotSigner)
        } else if !self.asset.is_signer {
            Some(AccountError::NotSigner)
        } else if receipt_found is None {
            Some(AccountError::NoBump)
        } else if (receipt_found->0).0 != self.receipt.info.key {
            Some(AccountError::Seeds)
        } else if !self.receipt.info.is_writable {
            Some(AccountError::Mut)
        } else if config_pda != Some(self.config.info.key) {
            Some(AccountError::Seeds)
        } else if !self.player_ata.info.is_writable {
            Some(AccountError::Mut)
        } else if self.player_ata.data.owner != self.player.key {
            Some(AccountError::TokenOwner)
        } else if self.player_ata.data.mint != self.config.data.mint {
            Some(AccountError::TokenMint)
        } else if !self.mint.info.is_writable {
            Some(AccountError::Mut)
        } else if self.mint.info.key != self.config.data.mint {
            Some(AccountError::Address)
        } else if !self.player.is_writable {
            Some(AccountError::Mut)
        } else if self.outcome_authority.key != self.config.data.outcome_authority {
            Some(AccountError::Address)
        } else if !self.asset.is_writable {
            Some(AccountError::Mut)
        } else if self.mpl_core.key.bytes@ != crate::pda::mpl_core_program_bytes() {
            Some(AccountError::Address)
        } else {
            None
        }
    }

    /// These accounts keep every constraint.
    pub open spec fn accepted(
        self,
        receipt_found: Option<(Pubkey, u8)>,
        config_pda: Option<Pubkey>,
    ) -> bool {
        &&& self.player.is_signer
        &&& self.outcome_authority.is_signer
        &&& self.asset.is_signer
        &&& receipt_found is Some && (receipt_found->0).0 == self.receipt.info.key
        &&& self.receipt.info.is_writable
        &&& config_pda == Some(self.config.info.key)
        &&& self.player_ata.info.is_writable
        &&& self.player_ata.held_by(self.player.key, self.config.data.mint)
        &&& self.mint.info.is_writable
        &&& self.mint.info.key == self.config.data.mint
        &&& self.player.is_writable
        &&& self.outcome_authority.key == self.config.data.outcome_authority
        &&& self.asset.is_writable
        &&& self.mpl_core.key.bytes@ == crate::pda::mpl_core_program_bytes()
    }

    /// Finds the first constraint that these accounts break.
    pub fn check(
        &self,
        receipt_found: Option<(Pubkey, u8)>,
        config_pda: Option<Pubkey>,
    ) -> (r: Option<AccountError>)
        ensures
            r == self.refusal(receipt_found, config_pda),
            r is None <==> self.accepted(receipt_found, config_pda),
    {
        if !self.player.is_signer {
            Some(AccountError::NotSigner)
        } else if !self.outcome_authority.is_signer {
            Some(AccountError::NotSigner)
        } else if !self.asset.is_signer {
            Some(AccountError::NotSigner)
        } else if receipt_found.is_none() {
            Some(AccountError::NoBump)
        } else if !found_at(&receipt_found, &self.receipt.info.key) {
            Some(AccountError::Seeds)
        } else if !self.receipt.info.is_writable {
            Some(AccountError::Mut)
        } else if !is_at(&config_pda, &self.config.info.key) {
            Some(AccountError::Seeds)
        } else if !self.player_ata.info.is_writable {
            Some(AccountError::Mut)
        } else if !(self.player_ata.data.owner == self.player.key) {
            Some(AccountError::TokenOwner)
        } else if !(self.player_ata.data.mint == self.config.data.mint) {
            Some(AccountError::TokenMint)
        } else if !self.mint.info.is_writable {
            Some(AccountError::Mut)
        } else if !(self.mint.info.key == self.config.data.mint) {
            Some(AccountError::Address)
        } else if !self.player.is_writable {
            Some(AccountError::Mut)
        } else if !(self.outcome_authority.key == self.config.data.outcome_authority) {
            Some(AccountError::Address)
        } else if !self.asset.is_writable {
            Some(AccountError::Mut)
        } else if !is_mpl_core(&self.mpl_core.key) {
            Some(AccountError::Address)
        } else {
            None
        }
    }

    /// The first constraint that these accounts break under `program_id`.
    pub open spec fn refused(self, program_id: Pubkey, session_id: u64) -> Option<AccountError> {
        self.refusal(
            Pda::NftReceipt { player: self.player.key, session_id }.found(program_id),
            Pda::Config.created(self.config.data.bump, program_id),
        )
    }

    /// The context of these accounts: with the bumps found for its addresses.
    pub open spec fn context(self, program_id: Pubkey, session_id: u64) -> Context<
        Self,
        MintEndingNftBumps,
    > {
        Context {
            program_id,
            accounts: self,
            bumps: MintEndingNftBumps {
                receipt: (Pda::NftReceipt { player: self.player.key, session_id }.found(
                    program_id,
                )->0).1,
            },
        }
    }

    /// Checks the accounts; accepted ones become the context to run with. Its bumps
    /// create the addresses that they were found for.
    pub fn try_accounts(self, program_id: Pubkey, session_id: u64) -> (r: Result<
        Context<Self, MintEndingNftBumps>,
        AccountError,
    >)
        ensures
            r == (match self.refused(program_id, session_id) {
                Some(e) => Err::<Context<Self, MintEndingNftBumps>, AccountError>(e),
                None => Ok(self.context(program_id, session_id)),
            }),
            r matches Ok(ctx) ==> {
                &&& Pda::NftReceipt { player: self.player.key, session_id }.created(
                    ctx.bumps.receipt,
                    program_id,
                ) == Some(self.receipt.info.key)
            },
    {
        let receipt_found: Option<(Pubkey, u8)> = Pda::NftReceipt {
            player: self.player.key,
            session_id,
        }.find(&program_id);
        let config_pda: Option<Pubkey> = Pda::Config.create(self.config.data.bump, &program_id);
        match self.check(receipt_found, config_pda) {
            Some(e) => Err(e),
            None => match receipt_found {
                Some((_, receipt)) => Ok(
                    Context { program_id, accounts: self, bumps: MintEndingNftBumps { receipt } },
                ),
                None => Err(AccountError::NoBump),
            },
        }
    }
}

} // verus!
