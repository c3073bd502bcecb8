//! Laws of what the arithmetic gives back, in terms of what it is given.
//!
//! Each law takes the result of one call, and says what that result satisfies as a
//! relation on plain numbers.
use crate::error::GrindieError;
use crate::money::{enter, mul_bps, settle, FeeSplit, Settlement};
use crate::params::{apply_params, validate_params};
use crate::state::{Config, ConfigParams, Session};
use vstd::prelude::*;

verus! {

/// The endings are numbered from zero to five, the statuses are zero and one, and
/// the accounts have the lengths of their fields.
pub proof fn the_constants_are_these()
    ensures
        crate::state::END_REKT_FOREVER == 0,
        crate::state::END_GIGA_GRINDER == 1,
        crate::state::END_MADE_IT == 2,
        crate::state::END_REKT_BUT_BUILT == 3,
        crate::state::END_SURVIVED == 4,
        crate::state::END_REKT == 5,
        crate::state::END_MAX == 5,
        crate::state::STATUS_ACTIVE == 0,
        crate::state::STATUS_FINALIZED == 1,
        crate::state::BPS_WHOLE == 10_000,
        crate::state::ENDING_NONE == 255,
        crate::grindie::NAME_MAX == 64,
        crate::grindie::URI_MAX == 200,
        Config::LEN == 195,
        Session::LEN == 108,
        crate::state::NftReceipt::LEN == 42,
{
}

/// A share of at most a whole is the product divided by ten thousand, rounded
/// down: it is the largest whole number of tokens that is not more than its part.
pub proof fn a_share_is_rounded_down(amount: u64, bps: u16, r: Result<u64, GrindieError>)
    requires
        call_ensures(mul_bps, (amount, bps), r),
        bps <= 10_000,
    ensures
        r matches Ok(v) && v * 10_000 <= amount * bps < (v + 1) * 10_000,
{
    assert(0 <= amount * bps <= amount * 10_000) by (nonlinear_arith)
        requires
            0 <= amount,
            0 <= bps <= 10_000,
    ;
}

/// A share of any number of basis points is the low 64 bits of the product divided
/// by ten thousand and rounded down: with the bits that are cut off, some `k` times
/// two to the 64, it is that quotient.
pub proof fn a_share_keeps_its_low_bits(
    amount: u64,
    bps: u16,
    r: Result<u64, GrindieError>,
    v: u64,
    k: int,
)
    requires
        call_ensures(mul_bps, (amount, bps), r),
        (v + k * 0x1_0000_0000_0000_0000) * 10_000 <= amount * bps < (v + k
            * 0x1_0000_0000_0000_0000 + 1) * 10_000,
    ensures
        r == Ok::<u64, GrindieError>(v),
{
}

/// Of two shares of one amount that are both at most a whole, the one of more basis
/// points is not smaller.
pub proof fn shares_grow_with_the_basis_points(
    amount: u64,
    less: u16,
    more: u16,
    r: Result<u64, GrindieError>,
    s: Result<u64, GrindieError>,
)
    requires
        call_ensures(mul_bps, (amount, less), r),
        call_ensures(mul_bps, (amount, more), s),
        less <= more <= 10_000,
    ensures
        r matches Ok(v) && s matches Ok(w) && v <= w,
{
    a_share_is_rounded_down(amount, less, r);
    a_share_is_rounded_down(amount, more, s);
    assert(amount * less <= amount * more) by (nonlinear_arith)
        requires
            less <= more,
            0 <= amount,
    ;
}

/// Parameters are accepted exactly when each split sums to ten thousand, the
/// jackpot share is at most that, and the buy-in range is not reversed. A wrong
/// split is reported before a reversed range.
pub proof fn parameters_are_accepted_exactly_then(p: ConfigParams, r: Result<(), GrindieError>)
    requires
        call_ensures(validate_params, (&p,), r),
    ensures
        ({
            let splits = p.fee_burn_bps + p.fee_treasury_bps == 10_000 && p.win_share_bps
                + p.win_burn_bps == 10_000 && p.loss_vault_bps + p.loss_burn_bps == 10_000
                && p.jackpot_share_bps <= 10_000;
            &&& r is Ok <==> splits && p.buyin_min <= p.buyin_max
            &&& !splits ==> r == Err::<(), GrindieError>(GrindieError::BpsSumInvalid)
            &&& splits && p.buyin_min > p.buyin_max ==> r == Err::<(), GrindieError>(
                GrindieError::BuyinOutOfRange,
            )
        }),
{
}

/// Applied parameters stand in the fields of their names, and the other fields are
/// as they were.
pub proof fn applied_parameters_stand_in_their_fields(c: &mut Config, p: ConfigParams, r: ())
    requires
        call_ensures(apply_params, (c, &p), r),
    ensures
        final(c).holder_threshold == p.holder_threshold,
        final(c).buyin_min == p.buyin_min,
        final(c).buyin_max == p.buyin_max,
        final(c).session_fee == p.session_fee,
        final(c).nft_mint_fee == p.nft_mint_fee,
        final(c).rekt_forever_burn == p.rekt_forever_burn,
        final(c).fee_burn_bps == p.fee_burn_bps,
        final(c).fee_treasury_bps == p.fee_treasury_bps,
        final(c).win_share_bps == p.win_share_bps,
        final(c).win_burn_bps == p.win_burn_bps,
        final(c).loss_vault_bps == p.loss_vault_bps,
        final(c).loss_burn_bps == p.loss_burn_bps,
        final(c).jackpot_share_bps == p.jackpot_share_bps,
        final(c).win_cap_mult == p.win_cap_mult,
        final(c).admin == old(c).admin,
        final(c).mint == old(c).mint,
        final(c).outcome_authority == old(c).outcome_authority,
        final(c).content_root == old(c).content_root,
        final(c).paused == old(c).paused,
        final(c).bump == old(c).bump,
        final(c).vault_bump == old(c).vault_bump,
        final(c).treasury_bump == old(c).treasury_bump,
{
}

/// Who may enter: with a fee split of at most a whole, an entry is refused for a
/// pause, then for a stake out of range, then for too few tokens held, and for
/// nothing else.
pub proof fn entries_are_refused_exactly_then(
    c: Config,
    holdings: u64,
    buyin: u64,
    r: Result<FeeSplit, GrindieError>,
)
    requires
        call_ensures(enter, (&c, holdings, buyin), r),
        c.fee_burn_bps <= 10_000,
    ensures
        ({
            let ranged = c.buyin_min <= buyin <= c.buyin_max;
            &&& c.paused <==> r == Err::<FeeSplit, GrindieError>(GrindieError::Paused)
            &&& (!c.paused && !ranged) <==> r == Err::<FeeSplit, GrindieError>(
                GrindieError::BuyinOutOfRange,
            )
            &&& (!c.paused && ranged && holdings < c.holder_threshold) <==> r == Err::<
                FeeSplit,
                GrindieError,
            >(GrindieError::NotHolder)
            &&& (!c.paused && ranged && holdings >= c.holder_threshold) <==> r is Ok
        }),
{
    crate::money::lemma_share_bounded(c.session_fee, c.fee_burn_bps);
}

/// The fee of an entry: the burned part is the share of the fee, rounded down, and
/// the treasury gets the rest.
pub proof fn the_fee_is_shared_out(
    c: Config,
    holdings: u64,
    buyin: u64,
    r: Result<FeeSplit, GrindieError>,
)
    requires
        call_ensures(enter, (&c, holdings, buyin), r),
        c.fee_burn_bps <= 10_000,
        r is Ok,
    ensures
        r matches Ok(f) && {
            &&& f.burn * 10_000 <= c.session_fee * c.fee_burn_bps < (f.burn + 1) * 10_000
            &&& f.burn + f.treasury == c.session_fee
        },
{
    crate::money::lemma_share_bounded(c.session_fee, c.fee_burn_bps);
}

/// An entry under any split, `burn` being the low 64 bits of the burned share: where
/// nothing else refuses it, it overflows exactly when that is more than the fee, and
/// the fee is split by it otherwise.
pub proof fn an_entry_under_any_split(
    c: Config,
    holdings: u64,
    buyin: u64,
    r: Result<FeeSplit, GrindieError>,
    burn: u64,
    k: int,
)
    requires
        call_ensures(enter, (&c, holdings, buyin), r),
        !c.paused,
        c.buyin_min <= buyin <= c.buyin_max,
        holdings >= c.holder_threshold,
        (burn + k * 0x1_0000_0000_0000_0000) * 10_000 <= c.session_fee * c.fee_burn_bps < (burn + k
            * 0x1_0000_0000_0000_0000 + 1) * 10_000,
    ensures
        burn > c.session_fee ==> r == Err::<FeeSplit, GrindieError>(GrindieError::Overflow),
        burn <= c.session_fee ==> (r matches Ok(f) && f.burn == burn && f.treasury == c.session_fee
            - burn),
{
}

/// When a settlement is refused: for an unknown ending, then for a session that is
/// not open, then for a win whose cap does not fit into 64 bits, and for nothing
/// else, where the shares are at most a whole.
pub proof fn settlements_are_refused_exactly_then(
    c: Config,
    s: Session,
    final_stack: u64,
    ending: u8,
    vault_amount: u64,
    r: Result<Settlement, GrindieError>,
)
    requires
        call_ensures(settle, (&c, &s, final_stack, ending, vault_amount), r),
        c.win_share_bps <= 10_000,
        c.loss_burn_bps <= 10_000,
    ensures
        ({
            let huge = final_stack > s.buyin && s.buyin * c.win_cap_mult > 0xffff_ffff_ffff_ffff;
            &&& ending > 5 <==> r == Err::<Settlement, GrindieError>(GrindieError::BadEnding)
            &&& (ending <= 5 && s.status != 0) <==> r == Err::<Settlement, GrindieError>(
                GrindieError::SessionFinalized,
            )
            &&& (ending <= 5 && s.status == 0 && huge) <==> r == Err::<Settlement, GrindieError>(
                GrindieError::Overflow,
            )
            &&& (ending <= 5 && s.status == 0 && !huge) <==> r is Ok
        }),
{
    if final_stack > s.buyin {
        let win = crate::money::capped_win(c, s.buyin, final_stack);
        crate::money::lemma_share_bounded(win as u64, c.win_share_bps);
    } else {
        crate::money::lemma_share_bounded((s.buyin - final_stack) as u64, c.loss_burn_bps);
    }
}

/// A win is the gain, up to the cap: what the player gets of it and what is burned
/// of it make the smaller one of what the run gained and the stake times the cap. The
/// stake goes back whole, and there is no loss.
pub proof fn a_win_is_the_gain_up_to_the_cap(
    c: Config,
    s: Session,
    final_stack: u64,
    ending: u8,
    vault_amount: u64,
    r: Result<Settlement, GrindieError>,
)
    requires
        call_ensures(settle, (&c, &s, final_stack, ending, vault_amount), r),
        r is Ok,
        final_stack > s.buyin,
    ensures
        r matches Ok(x) && {
            let win = x.win_to_player + x.win_burn;
            let gain = final_stack - s.buyin;
            let cap = s.buyin * c.win_cap_mult;
            &&& x.won
            &&& x.stake_to_player == s.buyin
            &&& win <= gain
            &&& win <= cap
            &&& gain <= cap ==> win == gain
            &&& cap <= gain ==> win == cap
            &&& x.loss_to_vault == 0
            &&& x.loss_burn == 0
        },
{
}

/// The player gets the winner's share of the win, rounded down.
pub proof fn a_win_is_shared_by_its_basis_points(
    c: Config,
    s: Session,
    final_stack: u64,
    ending: u8,
    vault_amount: u64,
    r: Result<Settlement, GrindieError>,
)
    requires
        call_ensures(settle, (&c, &s, final_stack, ending, vault_amount), r),
        r is Ok,
        final_stack > s.buyin,
        c.win_share_bps <= 10_000,
    ensures
        r matches Ok(x) && x.win_to_player * 10_000 <= (x.win_to_player + x.win_burn)
            * c.win_share_bps < (x.win_to_player + 1) * 10_000,
{
    let win = crate::money::capped_win(c, s.buyin, final_stack);
    crate::money::lemma_share_bounded(win as u64, c.win_share_bps);
}

/// A loss is what is missing of the stake: what the vault gets of it and what is
/// burned of it make that, the burned part being its share, rounded down. What is
/// left of the stake goes back, and there is no win.
pub proof fn a_loss_is_what_is_missing(
    c: Config,
    s: Session,
    final_stack: u64,
    ending: u8,
    vault_amount: u64,
    r: Result<Settlement, GrindieError>,
)
    requires
        call_ensures(settle, (&c, &s, final_stack, ending, vault_amount), r),
        r is Ok,
        final_stack <= s.buyin,
    ensures
        r matches Ok(x) && {
            let loss = s.buyin - final_stack;
            &&& !x.won
            &&& x.stake_to_player == final_stack
            &&& x.loss_to_vault + x.loss_burn == loss
            &&& c.loss_burn_bps <= 10_000 ==> x.loss_burn * 10_000 <= loss * c.loss_burn_bps < (
            x.loss_burn + 1) * 10_000
            &&& x.win_to_player == 0
            &&& x.win_burn == 0
        },
{
    if c.loss_burn_bps <= 10_000 {
        crate::money::lemma_share_bounded((s.buyin - final_stack) as u64, c.loss_burn_bps);
    }
}

/// The extra burn of the first ending is the smaller one of what is configured and
/// what the vault holds; the other endings have none.
pub proof fn the_extra_burn_is_the_smaller_amount(
    c: Config,
    s: Session,
    final_stack: u64,
    ending: u8,
    vault_amount: u64,
    r: Result<Settlement, GrindieError>,
)
    requires
        call_ensures(settle, (&c, &s, final_stack, ending, vault_amount), r),
        r is Ok,
    ensures
        r matches Ok(x) && {
            &&& ending != 0 ==> x.rekt_burn == 0
            &&& ending == 0 && c.rekt_forever_burn <= vault_amount ==> x.rekt_burn
                == c.rekt_forever_burn
            &&& ending == 0 && vault_amount <= c.rekt_forever_burn ==> x.rekt_burn == vault_amount
        },
{
}

/// A settlement under any split, `part` being the low 64 bits of the player's share
/// of a win, or of the burned share of a loss: the settlement overflows exactly when
/// the cap does not fit or `part` is more than what is shared, and is made by it
/// otherwise.
pub proof fn a_settlement_under_any_split(
    c: Config,
    s: Session,
    final_stack: u64,
    ending: u8,
    vault_amount: u64,
    r: Result<Settlement, GrindieError>,
    amount: int,
    part: u64,
    k: int,
)
    requires
        call_ensures(settle, (&c, &s, final_stack, ending, vault_amount), r),
        ending <= 5,
        s.status == 0,
        final_stack > s.buyin ==> {
            &&& amount <= final_stack - s.buyin
            &&& amount <= s.buyin * c.win_cap_mult
            &&& amount == final_stack - s.buyin || amount == s.buyin * c.win_cap_mult
            &&& (part + k * 0x1_0000_0000_0000_0000) * 10_000 <= amount * c.win_share_bps < (part
                + k * 0x1_0000_0000_0000_0000 + 1) * 10_000
        },
        final_stack <= s.buyin ==> {
            &&& amount == s.buyin - final_stack
            &&& (part + k * 0x1_0000_0000_0000_0000) * 10_000 <= amount * c.loss_burn_bps < (part
                + k * 0x1_0000_0000_0000_0000 + 1) * 10_000
        },
    ensures
        ({
            let huge = final_stack > s.buyin && s.buyin * c.win_cap_mult > 0xffff_ffff_ffff_ffff;
            &&& huge || part > amount ==> r == Err::<Settlement, GrindieError>(
                GrindieError::Overflow,
            )
            &&& !huge && part <= amount ==> (r matches Ok(x) && {
                &&& final_stack > s.buyin ==> x.win_to_player == part && x.win_burn == amount - part
                &&& final_stack <= s.buyin ==> x.loss_burn == part && x.loss_to_vault == amount
                    - part
            })
        }),
{
    if final_stack > s.buyin {
        assert(0 <= s.buyin * c.win_cap_mult) by (nonlinear_arith)
            requires
                0 <= s.buyin,
                0 <= c.win_cap_mult,
        ;
        assert(amount == crate::money::capped_win(c, s.buyin, final_stack));
    }
}

} // verus!
