//! The arithmetic of the arena: how a fee is split, who may stake what, and who
//! gets what when a session is settled. No token moves here: these functions
//! say which amounts have to.
use crate::error::GrindieError;
use crate::state::{Config, Session, END_MAX, END_REKT_FOREVER, STATUS_ACTIVE};
use vstd::prelude::*;

verus! {

/// The share of `amount` that `bps` basis points make, rounded down.
pub open spec fn share(amount: int, bps: int) -> int {
    amount * bps / 10_000
}

/// The low 64 bits of a share. A share of at most 10000 basis points is no more
/// than the amount, so that nothing is cut off.
pub open spec fn share_u64(amount: u64, bps: u16) -> u64 {
    (share(amount as int, bps as int) % 0x1_0000_0000_0000_0000) as u64
}

/// A share of at most a whole lies between nothing and the amount, and fits.
pub proof fn lemma_share_bounded(amount: u64, bps: u16)
    requires
        bps <= 10_000,
    ensures
        0 <= share(amount as int, bps as int) <= amount,
        share_u64(amount, bps) == share(amount as int, bps as int),
{
    assert(0 <= amount * bps <= amount * 10_000) by (nonlinear_arith)
        requires
            0 <= amount,
            0 <= bps <= 10_000,
    ;
}

/// The share of `amount` that `bps` basis points make: the product, divided by
/// 10000 and rounded down, of which the low 64 bits are kept.
pub fn mul_bps(amount: u64, bps: u16) -> (r: Result<u64, GrindieError>)
    ensures
        r == Ok::<u64, GrindieError>(share_u64(amount, bps)),
        bps <= 10_000 ==> share_u64(amount, bps) == share(amount as int, bps as int),
{
    assert((amount as u128) * (bps as u128) <= 0xffff_ffff_ffff_ffff * 0xffff)
        by (nonlinear_arith)
        requires
            amount <= 0xffff_ffff_ffff_ffff,
            bps <= 0xffff,
    ;
    let product: u128 = (amount as u128) * (bps as u128);
    let quotient: u128 = product / 10_000;
    assert(quotient as u64 == quotient % 0x1_0000_0000_0000_0000) by (bit_vector);
    proof {
        if bps <= 10_000 {
            lemma_share_bounded(amount, bps);
        }
    }
    Ok(#[verifier::truncate] (quotient as u64))
}

/// A session fee in two parts.
#[derive(Clone, Copy, Debug, PartialEq, Eq, Structural)]
pub struct FeeSplit {
    /// What is burned.
    pub burn: u64,
    /// What the treasury gets.
    pub treasury: u64,
}

/// The part of the session fee that is burned.
pub open spec fn fee_burn(c: Config) -> u64 {
    share_u64(c.session_fee, c.fee_burn_bps)
}

/// Why a player who holds `holdings` tokens may not stake `buyin`, or `None` if
/// they may.
pub open spec fn entry_refusal(c: Config, holdings: u64, buyin: u64) -> Option<GrindieError> {
    if c.paused {
        Some(GrindieError::Paused)
    } else if buyin < c.buyin_min || buyin > c.buyin_max {
        Some(GrindieError::BuyinOutOfRange)
    } else if holdings < c.holder_threshold {
        Some(GrindieError::NotHolder)
    } else if fee_burn(c) > c.session_fee {
        Some(GrindieError::Overflow)
    } else {
        None
    }
}

/// The two parts of the session fee: what is not burned goes to the treasury.
pub open spec fn fee_split(c: Config) -> FeeSplit {
    FeeSplit { burn: fee_burn(c), treasury: (c.session_fee - fee_burn(c)) as u64 }
}

/// Lets in a player who holds `holdings` tokens and stakes `buyin`, and splits
/// the fee that they pay.
pub fn enter(c: &Config, holdings: u64, buyin: u64) -> (r: Result<FeeSplit, GrindieError>)
    ensures
        r == (match entry_refusal(*c, holdings, buyin) {
            Some(e) => Err::<FeeSplit, GrindieError>(e),
            None => Ok(fee_split(*c)),
        }),
{
    if c.paused {
        return Err(GrindieError::Paused);
    }
    if !(buyin >= c.buyin_min && buyin <= c.buyin_max) {
        return Err(GrindieError::BuyinOutOfRange);
    }
    if !(holdings >= c.holder_threshold) {
        return Err(GrindieError::NotHolder);
    }
    let fee: u64 = c.session_fee;
    let burn: u64 = mul_bps(fee, c.fee_burn_bps)?;
    match fee.checked_sub(burn) {
        Some(treasury) => Ok(FeeSplit { burn, treasury }),
        None => Err(GrindieError::Overflow),
    }
}

/// The amounts that settle a session.
#[derive(Clone, Copy, Debug, PartialEq, Eq, Structural)]
pub struct Settlement {
    /// Whether the run ended with more than the stake.
    pub won: bool,
    /// From escrow to the player: what is left of the stake.
    pub stake_to_player: u64,
    /// From the vault to the player: the player's share of the capped win.
    pub win_to_player: u64,
    /// Burned from the vault: the rest of the capped win.
    pub win_burn: u64,
    /// From escrow to the vault: the vault's part of the loss.
    pub loss_to_vault: u64,
    /// Burned from escrow: the burned part of the loss.
    pub loss_burn: u64,
    /// Burned from the vault because the run ended rekt forever.
    pub rekt_burn: u64,
}

/// The most that a session of stake `buyin` can win.
pub open spec fn win_cap(c: Config, buyin: u64) -> int {
    buyin * c.win_cap_mult
}

/// The win that is settled: what the run gained, but no more than the cap.
pub open spec fn capped_win(c: Config, buyin: u64, final_stack: u64) -> int {
    let gain = final_stack - buyin;
    if gain <= win_cap(c, buyin) {
        gain
    } else {
        win_cap(c, buyin)
    }
}

/// Why a session cannot be settled with this result, or `None` if it can.
pub open spec fn settle_refusal(c: Config, s: Session, final_stack: u64, ending: u8) -> Option<
    GrindieError,
> {
    if ending > END_MAX {
        Some(GrindieError::BadEnding)
    } else if s.status != STATUS_ACTIVE {
        Some(GrindieError::SessionFinalized)
    } else if final_stack > s.buyin {
        let win = capped_win(c, s.buyin, final_stack) as u64;
        if win_cap(c, s.buyin) > u64::MAX || share_u64(win, c.win_share_bps) > win {
            Some(GrindieError::Overflow)
        } else {
            None
        }
    } else {
        let loss = (s.buyin - final_stack) as u64;
        if share_u64(loss, c.loss_burn_bps) > loss {
            Some(GrindieError::Overflow)
        } else {
            None
        }
    }
}

/// What is burned from the vault for the ending alone: the configured amount,
/// but no more than the vault held when the instruction began.
pub open spec fn rekt_burn(c: Config, ending: u8, vault_amount: u64) -> u64 {
    if ending != END_REKT_FOREVER {
        0
    } else if c.rekt_forever_burn <= vault_amount {
        c.rekt_forever_burn
    } else {
        vault_amount
    }
}

/// The amounts that settle a session of stake `buyin`.
pub open spec fn settlement(
    c: Config,
    buyin: u64,
    final_stack: u64,
    ending: u8,
    vault_amount: u64,
) -> Settlement {
    if final_stack > buyin {
        let win = capped_win(c, buyin, final_stack) as u64;
        let paid = share_u64(win, c.win_share_bps);
        Settlement {
            won: true,
            stake_to_player: buyin,
            win_to_player: paid,
            win_burn: (win - paid) as u64,
            loss_to_vault: 0,
            loss_burn: 0,
            rekt_burn: rekt_burn(c, ending, vault_amount),
        }
    } else {
        let loss = (buyin - final_stack) as u64;
        let burned = share_u64(loss, c.loss_burn_bps);
        Settlement {
            won: false,
            stake_to_player: final_stack,
            win_to_player: 0,
            win_burn: 0,
            loss_to_vault: (loss - burned) as u64,
            loss_burn: burned,
            rekt_burn: rekt_burn(c, ending, vault_amount),
        }
    }
}

/// Works out how a session is settled that ended with `final_stack` and
/// `ending`, while the vault holds `vault_amount`.
pub fn settle(
    c: &Config,
    s: &Session,
    final_stack: u64,
    ending: u8,
    vault_amount: u64,
) -> (r: Result<Settlement, GrindieError>)
    ensures
        r == (match settle_refusal(*c, *s, final_stack, ending) {
            Some(e) => Err::<Settlement, GrindieError>(e),
            None => Ok(settlement(*c, s.buyin, final_stack, ending, vault_amount)),
        }),
{
    if ending > END_MAX {
        return Err(GrindieError::BadEnding);
    }
    if s.status != STATUS_ACTIVE {
        return Err(GrindieError::SessionFinalized);
    }
    let rekt: u64 = if ending == END_REKT_FOREVER {
        if c.rekt_forever_burn <= vault_amount {
            c.rekt_forever_burn
        } else {
            vault_amount
        }
    } else {
        0
    };
    let stake: u64 = s.buyin;
    if final_stack > stake {
        let gain: u64 = final_stack - stake;
        let cap: u64 = match stake.checked_mul(c.win_cap_mult as u64) {
            Some(cap) => cap,
            None => {
                return Err(GrindieError::Overflow);
            },
        };
        let win: u64 = if gain <= cap {
            gain
        } else {
            cap
        };
        let paid: u64 = mul_bps(win, c.win_share_bps)?;
        let burned: u64 = match win.checked_sub(paid) {
            Some(burned) => burned,
            None => {
                return Err(GrindieError::Overflow);
            },
        };
        Ok(
            Settlement {
                won: true,
                stake_to_player: stake,
                win_to_player: paid,
                win_burn: burned,
                loss_to_vault: 0,
                loss_burn: 0,
                rekt_burn: rekt,
            },
        )
    } else {
        let loss: u64 = stake - final_stack;
        let burned: u64 = mul_bps(loss, c.loss_burn_bps)?;
        let kept: u64 = match loss.checked_sub(burned) {
            Some(kept) => kept,
            None => {
                return Err(GrindieError::Overflow);
            },
        };
        Ok(
            Settlement {
                won: false,
                stake_to_player: final_stack,
                win_to_player: 0,
                win_burn: 0,
                loss_to_vault: kept,
                loss_burn: burned,
                rekt_burn: rekt,
            },
        )
    }
}

} // verus!
