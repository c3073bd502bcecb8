//! What an instruction asks of the other programs on the chain, as values: the
//! token program moves, burns and closes; the asset program mints.
use crate::pda::Pda;
use crate::pubkey::Pubkey;
use vstd::prelude::*;

verus! {

/// Who authorises a token instruction.
#[derive(Clone, Copy, Debug, PartialEq, Eq)]
pub enum Authority {
    /// An account that signed the transaction.
    Wallet { key: Pubkey },
    /// An account that the program signs for, with its seeds and this bump.
    Program { key: Pubkey, pda: Pda, bump: u8 },
}

impl Authority {
    /// The authorising account.
    pub open spec fn account(self) -> Pubkey {
        match self {
            Authority::Wallet { key } => key,
            Authority::Program { key, .. } => key,
        }
    }

    /// The seeds that the program signs with: none where a wallet has signed.
    pub open spec fn signature(self) -> Seq<Seq<u8>> {
        match self {
            Authority::Wallet { .. } => seq![],
            Authority::Program { pda, bump, .. } => pda.signer_seeds(bump),
        }
    }

    /// The authorising account.
    pub fn key(&self) -> (r: Pubkey)
        ensures
            r == self.account(),
    {
        match self {
            Authority::Wallet { key } => *key,
            Authority::Program { key, .. } => *key,
        }
    }

    /// The seeds to sign with, as byte strings; empty where a wallet has signed.
    pub fn signer_seeds(&self) -> (r: Vec<Vec<u8>>)
        ensures
            r.deep_view() == self.signature(),
    {
        match self {
            Authority::Wallet { .. } => {
                let none: Vec<Vec<u8>> = Vec::new();
                assert(none.deep_view() =~= self.signature());
                none
            },
            Authority::Program { pda, bump, .. } => pda.signer_seed_bytes(*bump),
        }
    }
}

/// One instruction to the token program `program`.
#[derive(Clone, Copy, Debug, PartialEq, Eq)]
pub enum TokenOp {
    /// Move `amount` from one token account to another of the same mint.
    TransferChecked {
        program: Pubkey,
        from: Pubkey,
        mint: Pubkey,
        to: Pubkey,
        authority: Authority,
        amount: u64,
        decimals: u8,
    },
    /// Destroy `amount` of what a token account holds.
    Burn { program: Pubkey, mint: Pubkey, from: Pubkey, authority: Authority, amount: u64 },
    /// Close an empty token account and send its rent to `destination`.
    CloseAccount { program: Pubkey, account: Pubkey, destination: Pubkey, authority: Authority },
}

impl TokenOp {
    /// How many tokens leave `account`.
    pub open spec fn taken_from(self, account: Pubkey) -> int {
        match self {
            TokenOp::TransferChecked { from, amount, .. } if from == account => amount as int,
            TokenOp::Burn { from, amount, .. } if from == account => amount as int,
            _ => 0,
        }
    }

    /// How many tokens are sent to `account`.
    pub open spec fn sent_to(self, account: Pubkey) -> int {
        match self {
            TokenOp::TransferChecked { to, amount, .. } if to == account => amount as int,
            _ => 0,
        }
    }

    /// How many tokens are destroyed.
    pub open spec fn destroyed(self) -> int {
        match self {
            TokenOp::Burn { amount, .. } => amount as int,
            _ => 0,
        }
    }

    /// How many tokens the instruction names.
    pub open spec fn amount(self) -> int {
        match self {
            TokenOp::TransferChecked { amount, .. } => amount as int,
            TokenOp::Burn { amount, .. } => amount as int,
            TokenOp::CloseAccount { .. } => 0,
        }
    }

    /// The token account that the instruction takes from or closes.
    pub open spec fn source(self) -> Pubkey {
        match self {
            TokenOp::TransferChecked { from, .. } => from,
            TokenOp::Burn { from, .. } => from,
            TokenOp::CloseAccount { account, .. } => account,
        }
    }

    /// Who authorises the instruction.
    pub open spec fn authorised_by(self) -> Authority {
        match self {
            TokenOp::TransferChecked { authority, .. } => authority,
            TokenOp::Burn { authority, .. } => authority,
            TokenOp::CloseAccount { authority, .. } => authority,
        }
    }
}

/// The instruction alone where it names an amount, and nothing where it names
/// none.
pub open spec fn if_positive(op: TokenOp) -> Seq<TokenOp> {
    if op.amount() > 0 {
        seq![op]
    } else {
        seq![]
    }
}

/// How many tokens leave `account` over a list of instructions.
pub open spec fn total_taken(ops: Seq<TokenOp>, account: Pubkey) -> int
    decreases ops.len(),
{
    if ops.len() == 0 {
        0
    } else {
        total_taken(ops.drop_last(), account) + ops.last().taken_from(account)
    }
}

/// How many tokens are sent to `account` over a list of instructions.
pub open spec fn total_sent(ops: Seq<TokenOp>, account: Pubkey) -> int
    decreases ops.len(),
{
    if ops.len() == 0 {
        0
    } else {
        total_sent(ops.drop_last(), account) + ops.last().sent_to(account)
    }
}

/// How many tokens are destroyed over a list of instructions.
pub open spec fn total_destroyed(ops: Seq<TokenOp>) -> int
    decreases ops.len(),
{
    if ops.len() == 0 {
        0
    } else {
        total_destroyed(ops.drop_last()) + ops.last().destroyed()
    }
}

/// One instruction to the asset program: create an asset.
#[derive(Clone, Debug, PartialEq, Eq)]
pub struct CreateAsset {
    /// The asset program.
    pub program: Pubkey,
    /// The address of the new asset.
    pub asset: Pubkey,
    /// Who pays for its storage.
    pub payer: Pubkey,
    /// Who owns it.
    pub owner: Pubkey,
    /// Who may change it.
    pub update_authority: Pubkey,
    pub name: String,
    pub uri: String,
    /// Whether it is frozen for good, by a permanent freeze delegate: such an
    /// asset cannot be transferred.
    pub frozen: bool,
}

/// An account of the program that is closed, and who gets its rent.
#[derive(Clone, Copy, Debug, PartialEq, Eq)]
pub struct AccountClosure {
    pub account: Pubkey,
    pub destination: Pubkey,
}

/// A session was settled.
#[derive(Clone, Copy, Debug, PartialEq, Eq)]
pub struct SessionFinalized {
    pub player: Pubkey,
    pub session_id: u64,
    pub ending: u8,
    pub final_stack: u64,
}

/// An ending asset was minted.
#[derive(Clone, Copy, Debug, PartialEq, Eq)]
pub struct NftMinted {
    pub player: Pubkey,
    pub session_id: u64,
    pub ending: u8,
}

/// What the settlement of a session asks for, and the event that it emits.
#[derive(Clone, Debug, PartialEq, Eq)]
pub struct ArenaOutcome {
    pub ops: Vec<TokenOp>,
    pub event: SessionFinalized,
}

/// What the minting of an ending asset asks for, the token instructions first,
/// and the event that it emits.
#[derive(Clone, Debug, PartialEq, Eq)]
pub struct MintOutcome {
    pub ops: Vec<TokenOp>,
    pub asset: CreateAsset,
    pub event: NftMinted,
}

} // verus!
