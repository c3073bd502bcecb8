//! The accounts that the program keeps, and the constants that their fields
//! take.
use crate::error::GrindieError;
use crate::pubkey::Pubkey;
use vstd::prelude::*;

verus! {

/// The run ended with everything lost for good.
pub const END_REKT_FOREVER: u8 = 0;

/// The run ended as a giga grinder.
pub const END_GIGA_GRINDER: u8 = 1;

/// The run ended with the player having made it.
pub const END_MADE_IT: u8 = 2;

/// The run ended rekt, but with something built.
pub const END_REKT_BUT_BUILT: u8 = 3;

/// The run ended with the player having survived.
pub const END_SURVIVED: u8 = 4;

/// The run ended rekt.
pub const END_REKT: u8 = 5;

/// The largest ending id.
pub const END_MAX: u8 = 5;

/// The session is open: its stake sits in escrow.
pub const STATUS_ACTIVE: u8 = 0;

/// The session is settled.
pub const STATUS_FINALIZED: u8 = 1;

/// A whole, in basis points.
pub const BPS_WHOLE: u16 = 10_000;

/// The ending of a session that has none yet.
pub const ENDING_NONE: u8 = 0xFF;

/// Thirty-two zero bytes: a hash that is not set.
pub open spec fn zero_hash() -> [u8; 32] {
    vstd::array::spec_array_fill_for_copy_type::<u8, 32>(0u8)
}

/// The configuration of the program. Its layout is the same in every version.
#[derive(Clone, Copy, Debug, PartialEq, Eq)]
pub struct Config {
    pub admin: Pubkey,
    pub mint: Pubkey,
    /// The backend signer that attests off-chain session results.
    pub outcome_authority: Pubkey,
    /// The hash of the active season content (provenance only).
    pub content_root: [u8; 32],
    pub holder_threshold: u64,
    pub buyin_min: u64,
    pub buyin_max: u64,
    pub session_fee: u64,
    pub nft_mint_fee: u64,
    pub rekt_forever_burn: u64,
    pub fee_burn_bps: u16,
    pub fee_treasury_bps: u16,
    pub win_share_bps: u16,
    pub win_burn_bps: u16,
    pub loss_vault_bps: u16,
    pub loss_burn_bps: u16,
    /// The share of the vault that a weekly jackpot draw pays out.
    pub jackpot_share_bps: u16,
    pub win_cap_mult: u8,
    pub paused: bool,
    pub bump: u8,
    pub vault_bump: u8,
    pub treasury_bump: u8,
}

impl Config {
    /// The bytes that the fields take: three keys, the content root, six `u64`,
    /// seven `u16`, and five of one byte.
    pub const LEN: usize = 32 * 3 + 32 + 8 * 6 + 2 * 7 + 1 * 5;

    /// The configuration with the tunable fields taken from `p`.
    pub open spec fn with_params(self, p: ConfigParams) -> Config {
        Config {
            holder_threshold: p.holder_threshold,
            buyin_min: p.buyin_min,
            buyin_max: p.buyin_max,
            session_fee: p.session_fee,
            nft_mint_fee: p.nft_mint_fee,
            rekt_forever_burn: p.rekt_forever_burn,
            fee_burn_bps: p.fee_burn_bps,
            fee_treasury_bps: p.fee_treasury_bps,
            win_share_bps: p.win_share_bps,
            win_burn_bps: p.win_burn_bps,
            loss_vault_bps: p.loss_vault_bps,
            loss_burn_bps: p.loss_burn_bps,
            jackpot_share_bps: p.jackpot_share_bps,
            win_cap_mult: p.win_cap_mult,
            ..self
        }
    }

    /// The tunable fields.
    pub open spec fn params(self) -> ConfigParams {
        ConfigParams {
            holder_threshold: self.holder_threshold,
            buyin_min: self.buyin_min,
            buyin_max: self.buyin_max,
            session_fee: self.session_fee,
            nft_mint_fee: self.nft_mint_fee,
            rekt_forever_burn: self.rekt_forever_burn,
            fee_burn_bps: self.fee_burn_bps,
            fee_treasury_bps: self.fee_treasury_bps,
            win_share_bps: self.win_share_bps,
            win_burn_bps: self.win_burn_bps,
            loss_vault_bps: self.loss_vault_bps,
            loss_burn_bps: self.loss_burn_bps,
            jackpot_share_bps: self.jackpot_share_bps,
            win_cap_mult: self.win_cap_mult,
        }
    }

    /// What every configuration that the program wrote fulfils: its splits each
    /// make a whole, and its buy-in range is not reversed.
    pub open spec fn wf(self) -> bool {
        self.params().valid()
    }
}

/// One arena session: the stake in custody and, once settled, the result.
#[derive(Clone, Copy, Debug, PartialEq, Eq)]
pub struct Session {
    pub player: Pubkey,
    pub session_id: u64,
    /// The stake.
    pub buyin: u64,
    /// The stack that the run starts with: the stake.
    pub start_stack: u64,
    /// The stack that the run ended with, zero until it is settled.
    pub final_stack: u64,
    /// The provenance of the off-chain run, zero until it is settled.
    pub choices_hash: [u8; 32],
    pub status: u8,
    /// The ending, `0xFF` until it is settled.
    pub ending: u8,
    pub created_slot: u64,
    pub bump: u8,
    pub escrow_bump: u8,
}

impl Session {
    /// The bytes that the fields take.
    pub const LEN: usize = 32 + 8 + 8 + 8 + 8 + 32 + 1 + 1 + 8 + 1 + 1;

    /// What every session that the program wrote fulfils: it starts with its
    /// stake, it holds no result while it is open, and a settled one holds a
    /// known ending.
    pub open spec fn wf(self) -> bool {
        &&& self.start_stack == self.buyin
        &&& self.status == STATUS_ACTIVE || self.status == STATUS_FINALIZED
        &&& self.status == STATUS_ACTIVE ==> {
            &&& self.final_stack == 0
            &&& self.choices_hash == zero_hash()
            &&& self.ending == ENDING_NONE
        }
        &&& self.status == STATUS_FINALIZED ==> self.ending <= END_MAX
    }
}

/// The receipt of an ending asset, one for each player and session.
#[derive(Clone, Copy, Debug, PartialEq, Eq)]
pub struct NftReceipt {
    pub player: Pubkey,
    pub session_id: u64,
    pub ending: u8,
    pub bump: u8,
}

impl NftReceipt {
    /// The bytes that the fields take.
    pub const LEN: usize = 32 + 8 + 1 + 1;
}

/// The tunable part of the configuration.
#[derive(Clone, Copy, Debug, PartialEq, Eq)]
pub struct ConfigParams {
    pub holder_threshold: u64,
    pub buyin_min: u64,
    pub buyin_max: u64,
    pub session_fee: u64,
    pub nft_mint_fee: u64,
    pub rekt_forever_burn: u64,
    pub fee_burn_bps: u16,
    pub fee_treasury_bps: u16,
    pub win_share_bps: u16,
    pub win_burn_bps: u16,
    pub loss_vault_bps: u16,
    pub loss_burn_bps: u16,
    pub jackpot_share_bps: u16,
    pub win_cap_mult: u8,
}

impl ConfigParams {
    /// Every split makes a whole, and the jackpot share is at most one.
    pub open spec fn splits_valid(self) -> bool {
        &&& self.fee_burn_bps + self.fee_treasury_bps == BPS_WHOLE
        &&& self.win_share_bps + self.win_burn_bps == BPS_WHOLE
        &&& self.loss_vault_bps + self.loss_burn_bps == BPS_WHOLE
        &&& self.jackpot_share_bps <= BPS_WHOLE
    }

    /// Why the parameters are refused, or `None` if they are accepted.
    pub open spec fn refusal(self) -> Option<GrindieError> {
        if !self.splits_valid() {
            Some(GrindieError::BpsSumInvalid)
        } else if self.buyin_min > self.buyin_max {
            Some(GrindieError::BuyinOutOfRange)
        } else {
            None
        }
    }

    /// The parameters that the program accepts.
    pub open spec fn valid(self) -> bool {
        self.splits_valid() && self.buyin_min <= self.buyin_max
    }
}

} // verus!
