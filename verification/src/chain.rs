//! The accounts of the chain over time, as a model to state laws in: which
//! addresses are in use and what they hold, and how an instruction of the program
//! changes that.
//!
//! The model rests on what the runtime grants every program: an account is
//! created only at an address that is not in use, is loaded only where it is, and
//! is changed only by the program that owns it; and an instruction that fails
//! changes nothing. Whether an instruction is accepted, what it writes and what it
//! asks of the token program is what the functions of [`crate::contexts`] and
//! [`crate::grindie`] ensure. Of the token program the model takes no more than
//! that tokens move whole and are not overdrawn, for a mint that takes no transfer
//! fee and does not stand for lamports, and that an account is closed only when it
//! is empty, which frees its address and sends all of its lamports to another one.
//! Ending assets are accounts of the asset program and are not followed.
use crate::accounts::{Account, Mint, TokenAccount};
use crate::contexts::{
    AdminOnly, CloseConfig, CloseTreasuryAta, CloseVaultAta, FinalizeArena, Initialize,
    MintEndingNft, SeedVault, StartArena, WithdrawTreasury, WithdrawVault,
};
use crate::ops::TokenOp;
use crate::pubkey::Pubkey;
use crate::state::{Config, ConfigParams, NftReceipt, Session};
use vstd::prelude::*;

verus! {

/// What an address that is in use holds.
pub enum Data {
    /// The configuration, in an account of the program.
    Config(Config),
    /// A session, in an account of the program.
    Session(Session),
    /// A receipt, in an account of the program.
    Receipt(NftReceipt),
    /// A token account.
    Token(TokenAccount),
    /// A mint.
    Mint(Mint),
    /// An account of yet another program.
    Other,
}

impl Data {
    /// It lies in an account that the program owns.
    pub open spec fn is_record(self) -> bool {
        self is Config || self is Session || self is Receipt
    }
}

/// The accounts of the chain at one time. An address that holds lamports and
/// nothing else is not in use.
pub struct Chain {
    /// What the addresses that are in use hold.
    pub accounts: Map<Pubkey, Data>,
    pub lamports: Map<Pubkey, int>,
}

impl Chain {
    /// Some account lies at this address.
    pub open spec fn in_use(self, key: Pubkey) -> bool {
        self.accounts.contains_key(key)
    }

    /// The account at this address holds `data`.
    pub open spec fn holds(self, key: Pubkey, data: Data) -> bool {
        self.in_use(key) && self.accounts[key] == data
    }

    /// What the program itself keeps at this address, if anything.
    pub open spec fn record(self, key: Pubkey) -> Option<Data> {
        if self.in_use(key) && self.accounts[key].is_record() {
            Some(self.accounts[key])
        } else {
            None
        }
    }

    /// The token account at this address, if there is one.
    pub open spec fn token(self, key: Pubkey) -> Option<TokenAccount> {
        if self.in_use(key) && self.accounts[key] is Token {
            Some(self.accounts[key]->Token_0)
        } else {
            None
        }
    }

    /// This token account is loaded as it is.
    pub open spec fn holds_token(self, a: Account<TokenAccount>) -> bool {
        self.holds(a.info.key, Data::Token(a.data))
    }

    /// With `data` at this address.
    pub open spec fn put(self, key: Pubkey, data: Data) -> Chain {
        Chain { accounts: self.accounts.insert(key, data), ..self }
    }

    /// With the account closed: its address is free, and `destination` has its
    /// lamports.
    pub open spec fn close(self, account: Pubkey, destination: Pubkey) -> Chain {
        Chain {
            accounts: self.accounts.remove(account),
            lamports: self.lamports.insert(account, 0).insert(
                destination,
                self.lamports[destination] + self.lamports[account],
            ),
        }
    }

    /// After one instruction to the token program, or `None` where that program
    /// is sure to refuse it.
    pub open spec fn apply(self, op: TokenOp) -> Option<Chain> {
        match op {
            TokenOp::TransferChecked { from, to, amount, .. } => match (
                self.token(from),
                self.token(to),
            ) {
                (Some(x), Some(y)) => if amount > x.amount {
                    None
                } else if from == to {
                    Some(self)
                } else if y.amount + amount > u64::MAX {
                    None
                } else {
                    Some(
                        self.put(
                            from,
                            Data::Token(TokenAccount { amount: (x.amount - amount) as u64, ..x }),
                        ).put(
                            to,
                            Data::Token(TokenAccount { amount: (y.amount + amount) as u64, ..y }),
                        ),
                    )
                },
                _ => None,
            },
            TokenOp::Burn { from, amount, .. } => match self.token(from) {
                Some(x) => if amount > x.amount {
                    None
                } else {
                    Some(
                        self.put(
                            from,
                            Data::Token(TokenAccount { amount: (x.amount - amount) as u64, ..x }),
                        ),
                    )
                },
                None => None,
            },
            TokenOp::CloseAccount { account, destination, .. } => match self.token(account) {
                Some(x) => if x.amount > 0 || account == destination {
                    None
                } else {
                    Some(self.close(account, destination))
                },
                None => None,
            },
        }
    }

    /// After a list of instructions to the token program, in order.
    pub open spec fn apply_all(self, ops: Seq<TokenOp>) -> Option<Chain>
        decreases ops.len(),
    {
        if ops.len() == 0 {
            Some(self)
        } else {
            match self.apply_all(ops.drop_last()) {
                Some(c) => c.apply(ops.last()),
                None => None,
            }
        }
    }
}

/// An empty token account of `mint` that `owner` holds.
pub open spec fn empty_token(mint: Pubkey, owner: Pubkey) -> TokenAccount {
    TokenAccount { mint, owner, amount: 0 }
}

/// One call of the program: an instruction with its accounts and arguments.
pub enum Instruction {
    Initialize { a: Initialize, p: ConfigParams },
    UpdateConfig { a: AdminOnly, p: ConfigParams },
    SetOutcomeAuthority { a: AdminOnly, key: Pubkey },
    SetAdmin { a: AdminOnly, key: Pubkey },
    SetMint { a: AdminOnly, key: Pubkey },
    SetContentRoot { a: AdminOnly, root: [u8; 32] },
    SetPaused { a: AdminOnly, paused: bool },
    SeedVault { a: SeedVault, amount: u64 },
    WithdrawTreasury { a: WithdrawTreasury, amount: u64 },
    WithdrawVault { a: WithdrawVault, amount: u64 },
    CloseTreasuryAta { a: CloseTreasuryAta },
    CloseVaultAta { a: CloseVaultAta },
    CloseConfig { a: CloseConfig },
    StartArena { a: StartArena, session_id: u64, buyin: u64, slot: u64 },
    FinalizeArena { a: FinalizeArena, final_stack: u64, ending: u8, choices_hash: [u8; 32] },
    MintEndingNft {
        a: MintEndingNft,
        session_id: u64,
        ending: u8,
        name: Seq<char>,
        uri: Seq<char>,
    },
}

impl Instruction {
    /// The configuration that the instruction runs under: none but for
    /// `initialize`, which writes the first.
    pub open spec fn config(self) -> Option<Account<Config>> {
        match self {
            Instruction::Initialize { .. } => None,
            Instruction::UpdateConfig { a, .. } => Some(a.config),
            Instruction::SetOutcomeAuthority { a, .. } => Some(a.config),
            Instruction::SetAdmin { a, .. } => Some(a.config),
            Instruction::SetMint { a, .. } => Some(a.config),
            Instruction::SetContentRoot { a, .. } => Some(a.config),
            Instruction::SetPaused { a, .. } => Some(a.config),
            Instruction::SeedVault { a, .. } => Some(a.config),
            Instruction::WithdrawTreasury { a, .. } => Some(a.config),
            Instruction::WithdrawVault { a, .. } => Some(a.config),
            Instruction::CloseTreasuryAta { a } => Some(a.config),
            Instruction::CloseVaultAta { a } => Some(a.config),
            Instruction::CloseConfig { a } => Some(a.config),
            Instruction::StartArena { a, .. } => Some(a.config),
            Instruction::FinalizeArena { a, .. } => Some(a.config),
            Instruction::MintEndingNft { a, .. } => Some(a.config),
        }
    }

    /// The other accounts that are loaded lie on the chain as they are handed
    /// over.
    pub open spec fn others_loaded(self, c: Chain) -> bool {
        match self {
            Instruction::Initialize { a, .. } => {
                c.holds(a.mint.info.key, Data::Mint(a.mint.data))
            },
            Instruction::SeedVault { a, .. } => {
                &&& c.holds_token(a.source_ata)
                &&& c.holds_token(a.vault_ata)
                &&& c.holds(a.mint.info.key, Data::Mint(a.mint.data))
            },
            Instruction::WithdrawTreasury { a, .. } => {
                &&& c.holds_token(a.treasury_ata)
                &&& c.holds_token(a.dest_ata)
                &&& c.holds(a.mint.info.key, Data::Mint(a.mint.data))
            },
            Instruction::WithdrawVault { a, .. } => {
                &&& c.holds_token(a.vault_ata)
                &&& c.holds_token(a.dest_ata)
                &&& c.holds(a.mint.info.key, Data::Mint(a.mint.data))
            },
            Instruction::CloseTreasuryAta { a } => c.holds_token(a.treasury_ata),
            Instruction::CloseVaultAta { a } => c.holds_token(a.vault_ata),
            Instruction::StartArena { a, .. } => {
                &&& c.holds_token(a.player_ata)
                &&& c.holds_token(a.treasury_ata)
                &&& c.holds(a.mint.info.key, Data::Mint(a.mint.data))
            },
            Instruction::FinalizeArena { a, .. } => {
                &&& c.holds(a.session.info.key, Data::Session(a.session.data))
                &&& c.holds_token(a.player_ata)
                &&& c.holds_token(a.escrow_ata)
                &&& c.holds_token(a.vault_ata)
                &&& c.holds(a.mint.info.key, Data::Mint(a.mint.data))
            },
            Instruction::MintEndingNft { a, .. } => {
                &&& c.holds_token(a.player_ata)
                &&& c.holds(a.mint.info.key, Data::Mint(a.mint.data))
            },
            _ => true,
        }
    }

    /// Every account that is loaded lies on the chain as it is handed over.
    pub open spec fn loaded(self, c: Chain) -> bool {
        &&& self.config() matches Some(x) ==> c.holds(x.info.key, Data::Config(x.data))
        &&& self.others_loaded(c)
    }

    /// The addresses at which the instruction creates accounts.
    pub open spec fn opens(self) -> Seq<Pubkey> {
        match self {
            Instruction::Initialize { a, .. } => seq![
                a.config.info.key,
                a.vault_ata.info.key,
                a.treasury_ata.info.key,
            ],
            Instruction::StartArena { a, .. } => seq![a.session.info.key, a.escrow_ata.info.key],
            Instruction::MintEndingNft { a, .. } => seq![a.receipt.info.key],
            _ => seq![],
        }
    }

    /// The addresses of the new accounts are not in use, and differ.
    pub open spec fn can_open(self, c: Chain) -> bool {
        &&& self.opens().no_duplicates()
        &&& forall|i: int| 0 <= i < self.opens().len() ==> !c.in_use(#[trigger] self.opens()[i])
    }

    /// The new token accounts are handed over as they are created: empty, of the
    /// mint, and held by their authority.
    pub open spec fn opens_empty(self) -> bool {
        match self {
            Instruction::Initialize { a, .. } => {
                &&& a.vault_ata.data == empty_token(a.mint.info.key, a.vault.key)
                &&& a.treasury_ata.data == empty_token(a.mint.info.key, a.treasury.key)
            },
            Instruction::StartArena { a, .. } => a.escrow_ata.data == empty_token(
                a.mint.info.key,
                a.escrow.key,
            ),
            _ => true,
        }
    }

    /// The chain with the new token accounts.
    pub open spec fn opened(self, c: Chain) -> Chain {
        match self {
            Instruction::Initialize { a, .. } => c.put(
                a.vault_ata.info.key,
                Data::Token(a.vault_ata.data),
            ).put(a.treasury_ata.info.key, Data::Token(a.treasury_ata.data)),
            Instruction::StartArena { a, .. } => c.put(
                a.escrow_ata.info.key,
                Data::Token(a.escrow_ata.data),
            ),
            _ => c,
        }
    }

    /// The accounts keep the constraints, and the instruction is not refused.
    pub open spec fn accepted(self, program_id: Pubkey) -> bool {
        match self {
            Instruction::Initialize { a, p } => {
                a.refused(program_id) is None && p.refusal() is None
            },
            Instruction::UpdateConfig { a, p } => {
                a.refused(program_id) is None && p.refusal() is None
            },
            Instruction::SetOutcomeAuthority { a, .. } => a.refused(program_id) is None,
            Instruction::SetAdmin { a, .. } => a.refused(program_id) is None,
            Instruction::SetMint { a, .. } => a.refused(program_id) is None,
            Instruction::SetContentRoot { a, .. } => a.refused(program_id) is None,
            Instruction::SetPaused { a, .. } => a.refused(program_id) is None,
            Instruction::SeedVault { a, .. } => a.refused(program_id) is None,
            Instruction::WithdrawTreasury { a, .. } => a.refused(program_id) is None,
            Instruction::WithdrawVault { a, .. } => a.refused(program_id) is None,
            Instruction::CloseTreasuryAta { a } => a.refused(program_id) is None,
            Instruction::CloseVaultAta { a } => a.refused(program_id) is None,
            Instruction::CloseConfig { a } => a.refused(program_id) is None,
            Instruction::StartArena { a, session_id, buyin, .. } => {
                &&& a.refused(program_id, session_id) is None
                &&& crate::money::entry_refusal(
                    a.config.data,
                    a.player_ata.data.amount,
                    buyin,
                ) is None
            },
            Instruction::FinalizeArena { a, final_stack, ending, .. } => {
                &&& a.refused(program_id) is None
                &&& crate::money::settle_refusal(
                    a.config.data,
                    a.session.data,
                    final_stack,
                    ending,
                ) is None
            },
            Instruction::MintEndingNft { a, session_id, ending, name, uri } => {
                &&& a.refused(program_id, session_id) is None
                &&& crate::grindie::mintable(ending, name, uri)
            },
        }
    }

    /// What the instruction asks of the token program.
    pub open spec fn ops(self) -> Seq<TokenOp> {
        match self {
            Instruction::SeedVault { a, amount } => seq![crate::grindie::vault_seeding(a, amount)],
            Instruction::WithdrawTreasury { a, amount } => seq![
                crate::grindie::treasury_withdrawal(a, amount),
            ],
            Instruction::WithdrawVault { a, amount } => seq![
                crate::grindie::vault_withdrawal(a, amount),
            ],
            Instruction::CloseTreasuryAta { a } => seq![crate::grindie::treasury_closure(a)],
            Instruction::CloseVaultAta { a } => seq![crate::grindie::vault_closure(a)],
            Instruction::StartArena { a, buyin, .. } => crate::grindie::entry_ops(a, buyin),
            Instruction::FinalizeArena { a, final_stack, ending, .. } => {
                crate::grindie::settlement_ops(
                    a,
                    crate::grindie::arena_settlement(a, final_stack, ending),
                )
            },
            Instruction::MintEndingNft { a, .. } => crate::grindie::minting_ops(a),
            _ => seq![],
        }
    }

    /// The account of the program that the instruction writes, and what it holds
    /// then, which is nothing where it is closed.
    pub open spec fn writes(self, program_id: Pubkey) -> Option<(Pubkey, Option<Data>)> {
        match self {
            Instruction::Initialize { a, p } => Some(
                (
                    a.config.info.key,
                    Some(
                        Data::Config(
                            crate::grindie::initialized(
                                a.context(program_id),
                                p,
                            ).accounts.config.data,
                        ),
                    ),
                ),
            ),
            Instruction::UpdateConfig { a, p } => Some(
                (a.config.info.key, Some(Data::Config(a.config.data.with_params(p)))),
            ),
            Instruction::SetOutcomeAuthority { a, key } => Some(
                (
                    a.config.info.key,
                    Some(Data::Config(Config { outcome_authority: key, ..a.config.data })),
                ),
            ),
            Instruction::SetAdmin { a, key } => Some(
                (a.config.info.key, Some(Data::Config(Config { admin: key, ..a.config.data }))),
            ),
            Instruction::SetMint { a, key } => Some(
                (a.config.info.key, Some(Data::Config(Config { mint: key, ..a.config.data }))),
            ),
            Instruction::SetContentRoot { a, root } => Some(
                (
                    a.config.info.key,
                    Some(Data::Config(Config { content_root: root, ..a.config.data })),
                ),
            ),
            Instruction::SetPaused { a, paused } => Some(
                (a.config.info.key, Some(Data::Config(Config { paused, ..a.config.data }))),
            ),
            Instruction::CloseConfig { a } => Some((a.config.info.key, None)),
            Instruction::StartArena { a, session_id, buyin, slot } => Some(
                (
                    a.session.info.key,
                    Some(
                        Data::Session(
                            crate::grindie::started(
                                a.context(program_id, session_id),
                                session_id,
                                buyin,
                                slot,
                            ).accounts.session.data,
                        ),
                    ),
                ),
            ),
            Instruction::FinalizeArena { a, final_stack, ending, choices_hash } => Some(
                (
                    a.session.info.key,
                    Some(
                        Data::Session(
                            crate::grindie::finalized(
                                crate::accounts::Context { program_id, accounts: a, bumps: () },
                                final_stack,
                                ending,
                                choices_hash,
                            ).accounts.session.data,
                        ),
                    ),
                ),
            ),
            Instruction::MintEndingNft { a, session_id, ending, .. } => Some(
                (
                    a.receipt.info.key,
                    Some(
                        Data::Receipt(
                            crate::grindie::minted(
                                a.context(program_id, session_id),
                                session_id,
                                ending,
                            ).accounts.receipt.data,
                        ),
                    ),
                ),
            ),
            _ => None,
        }
    }

    /// The chain with what the instruction writes.
    pub open spec fn written(self, program_id: Pubkey, c: Chain) -> Chain {
        match (self, self.writes(program_id)) {
            (Instruction::CloseConfig { a }, _) => {
                let x = crate::grindie::config_closure(a);
                c.close(x.account, x.destination)
            },
            (_, Some((key, Some(data)))) => c.put(key, data),
            _ => c,
        }
    }
}

impl Chain {
    /// After an instruction of the program, or `None` where it fails: an account
    /// cannot be loaded or created, the instruction is not accepted, or the token
    /// program refuses what it asks for.
    pub open spec fn step(self, program_id: Pubkey, i: Instruction) -> Option<Chain> {
        if i.loaded(self) && i.can_open(self) && i.opens_empty() && i.accepted(program_id) {
            match i.opened(self).apply_all(i.ops()) {
                Some(c) => Some(i.written(program_id, c)),
                None => None,
            }
        } else {
            None
        }
    }
}

/// What happens to the chain.
pub enum Event {
    /// An instruction of the program succeeds.
    Run(Instruction),
    /// Anything else: other programs run, or a transaction fails. The accounts of
    /// the program stay as they are.
    Elsewhere,
}

impl Event {
    /// `next` can follow `c` by this event. What new accounts cost, and who pays
    /// for them, is left open.
    pub open spec fn leads(self, program_id: Pubkey, c: Chain, next: Chain) -> bool {
        match self {
            Event::Run(i) => c.step(program_id, i) matches Some(x) && {
                &&& next.accounts == x.accounts
                &&& i.opens().len() == 0 ==> next.lamports == x.lamports
            },
            Event::Elsewhere => forall|key: Pubkey| #[trigger] next.record(key) == c.record(key),
        }
    }
}

/// The chain over time: its states, and what happened between each two.
pub struct History {
    pub chains: Seq<Chain>,
    pub events: Seq<Event>,
}

impl History {
    /// Every state follows the one before it.
    pub open spec fn possible(self, program_id: Pubkey) -> bool {
        &&& self.chains.len() == self.events.len() + 1
        &&& forall|n: int|
            0 <= n < self.events.len() ==> (#[trigger] self.events[n]).leads(
                program_id,
                self.chains[n],
                self.chains[n + 1],
            )
    }

    /// At the start the program has no accounts.
    pub open spec fn from_nothing(self) -> bool {
        forall|key: Pubkey| #[trigger] self.chains[0].record(key) is None
    }

    /// The `n`th event is this instruction.
    pub open spec fn runs(self, n: int, i: Instruction) -> bool {
        0 <= n < self.events.len() && self.events[n] == Event::Run(i)
    }
}

/// The program keeps its books: a configuration lies only at the one address for
/// it, and every configuration and every session is valid.
pub open spec fn in_order(program_id: Pubkey, c: Chain) -> bool {
    forall|key: Pubkey|
        match #[trigger] c.record(key) {
            Some(Data::Config(x)) => {
                &&& x.wf()
                &&& crate::pda::Pda::Config.found(program_id) matches Some((k, _)) && k == key
            },
            Some(Data::Session(s)) => s.wf(),
            _ => true,
        }
}

/// The token program leaves the accounts of the program as they are.
pub proof fn lemma_tokens_leave_records(c: Chain, ops: Seq<TokenOp>, key: Pubkey)
    requires
        c.apply_all(ops) is Some,
    ensures
        (c.apply_all(ops)->0).record(key) == c.record(key),
    decreases ops.len(),
{
    if ops.len() > 0 {
        lemma_tokens_leave_records(c, ops.drop_last(), key);
    }
}

/// An instruction changes the accounts of the program by what it writes, and by
/// nothing else.
pub proof fn lemma_step_writes(program_id: Pubkey, c: Chain, i: Instruction, key: Pubkey)
    requires
        c.step(program_id, i) is Some,
    ensures
        (c.step(program_id, i)->0).record(key) == (match i.writes(program_id) {
            Some((k, data)) => if k == key {
                data
            } else {
                c.record(key)
            },
            None => c.record(key),
        }),
{
    lemma_tokens_leave_records(i.opened(c), i.ops(), key);
    assert(i.opened(c).record(key) == c.record(key)) by {
        match i {
            Instruction::Initialize { .. } => {
                assert(!c.in_use(i.opens()[1]));
                assert(!c.in_use(i.opens()[2]));
            },
            Instruction::StartArena { .. } => {
                assert(!c.in_use(i.opens()[1]));
            },
            _ => {},
        }
    }
}

} // verus!
