//! The check of configuration parameters, and their transfer into the
//! configuration.
use crate::error::GrindieError;
use crate::state::{Config, ConfigParams, BPS_WHOLE};
use vstd::prelude::*;

verus! {

/// Whether two parts of a split make a whole.
fn makes_a_whole(part: u16, other: u16) -> (r: bool)
    ensures
        r == (part + other == BPS_WHOLE),
{
    match part.checked_add(other) {
        Some(sum) => sum == BPS_WHOLE,
        None => false,
    }
}

/// Accepts the parameters whose splits each sum to 10000, whose jackpot share
/// is at most 10000, and whose buy-in range is not reversed. A split whose sum
/// does not fit into sixteen bits is refused like any other wrong one.
pub fn validate_params(p: &ConfigParams) -> (r: Result<(), GrindieError>)
    ensures
        r == (match p.refusal() {
            Some(e) => Err::<(), GrindieError>(e),
            None => Ok(()),
        }),
        r is Ok <==> p.valid(),
{
    if !makes_a_whole(p.fee_burn_bps, p.fee_treasury_bps) {
        return Err(GrindieError::BpsSumInvalid);
    }
    if !makes_a_whole(p.win_share_bps, p.win_burn_bps) {
        return Err(GrindieError::BpsSumInvalid);
    }
    if !makes_a_whole(p.loss_vault_bps, p.loss_burn_bps) {
        return Err(GrindieError::BpsSumInvalid);
    }
    if p.jackpot_share_bps > BPS_WHOLE {
        return Err(GrindieError::BpsSumInvalid);
    }
    if p.buyin_min > p.buyin_max {
        return Err(GrindieError::BuyinOutOfRange);
    }
    Ok(())
}

/// Copies the parameters into the configuration, and leaves every other field
/// as it is.
pub fn apply_params(c: &mut Config, p: &ConfigParams)
    ensures
        *final(c) == old(c).with_params(*p),
{
    c.holder_threshold = p.holder_threshold;
    c.buyin_min = p.buyin_min;
    c.buyin_max = p.buyin_max;
    c.session_fee = p.session_fee;
    c.nft_mint_fee = p.nft_mint_fee;
    c.rekt_forever_burn = p.rekt_forever_burn;
    c.fee_burn_bps = p.fee_burn_bps;
    c.fee_treasury_bps = p.fee_treasury_bps;
    c.win_share_bps = p.win_share_bps;
    c.win_burn_bps = p.win_burn_bps;
    c.loss_vault_bps = p.loss_vault_bps;
    c.loss_burn_bps = p.loss_burn_bps;
    c.jackpot_share_bps = p.jackpot_share_bps;
    c.win_cap_mult = p.win_cap_mult;
}

} // verus!
