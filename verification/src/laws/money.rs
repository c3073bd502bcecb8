//! Laws of the money: what is paid in is paid out or burned, and nobody gets
//! more than the rules give.
use crate::contexts::{FinalizeArena, MintEndingNft, StartArena};
use crate::ledger::{lemma_totals_add, lemma_totals_if_positive, lemma_totals_one};
use crate::money::{lemma_share_bounded, Settlement};
use crate::ops::TokenOp;
use crate::pubkey::Pubkey;
use crate::state::{Config, Session, END_REKT_FOREVER};
use vstd::prelude::*;

verus! {

/// A larger amount has no smaller share.
pub proof fn shares_grow_with_the_amount(a: int, b: int, bps: int)
    requires
        a <= b,
        0 <= bps,
    ensures
        crate::money::share(a, bps) <= crate::money::share(b, bps),
{
    assert(a * bps <= b * bps) by (nonlinear_arith)
        requires
            a <= b,
            0 <= bps,
    ;
}

/// Two shares that make a whole leave at most one token to rounding.
pub proof fn complementary_shares_make_the_amount(amount: int, bps: int)
    ensures
        amount - 1 <= crate::money::share(amount, bps) + crate::money::share(amount, 10_000 - bps)
            <= amount,
{
    assert(amount * (10_000 - bps) == amount * 10_000 - amount * bps) by (nonlinear_arith);
}

/// What is left of an amount after one part of a split has its share, rounded
/// down, is the share of the other part or one token more.
pub proof fn the_other_part_gets_the_rounding(amount: u64, part: u16, other: u16)
    requires
        part + other == 10_000,
    ensures
        crate::money::share(amount as int, other as int) <= amount - crate::money::share_u64(
            amount,
            part,
        ) <= crate::money::share(amount as int, other as int) + 1,
{
    lemma_share_bounded(amount, part);
    complementary_shares_make_the_amount(amount as int, part as int);
}

/// The session fee goes to the burn and the treasury whole, and under a valid
/// configuration each gets its share of it, the treasury with the rounding.
pub proof fn the_fee_is_split_whole(c: Config, holdings: u64, buyin: u64)
    requires
        crate::money::entry_refusal(c, holdings, buyin) is None,
    ensures
        ({
            let fee = crate::money::fee_split(c);
            let treasury_share = crate::money::share(
                c.session_fee as int,
                c.fee_treasury_bps as int,
            );
            &&& fee.burn + fee.treasury == c.session_fee
            &&& c.wf() ==> fee.burn == crate::money::share(
                c.session_fee as int,
                c.fee_burn_bps as int,
            )
            &&& c.wf() ==> treasury_share <= fee.treasury <= treasury_share + 1
        }),
{
    if c.wf() {
        lemma_share_bounded(c.session_fee, c.fee_burn_bps);
        the_other_part_gets_the_rounding(c.session_fee, c.fee_burn_bps, c.fee_treasury_bps);
    }
}

/// A player who enters pays the fee and the stake and no more, and no one else
/// pays: of this the escrow gets the stake, the treasury its part of the fee,
/// and the rest is burned.
pub proof fn an_entry_costs_the_fee_and_the_stake(a: StartArena, holdings: u64, buyin: u64)
    requires
        crate::money::entry_refusal(a.config.data, holdings, buyin) is None,
    ensures
        ({
            let ops = crate::grindie::entry_ops(a, buyin);
            let fee = crate::money::fee_split(a.config.data);
            let player = a.player_ata.info.key;
            let escrow = a.escrow_ata.info.key;
            let treasury = a.treasury_ata.info.key;
            &&& crate::ops::total_taken(ops, player) == a.config.data.session_fee + buyin
            &&& forall|other: Pubkey|
                other != player ==> #[trigger] crate::ops::total_taken(ops, other) == 0
            &&& escrow != treasury ==> crate::ops::total_sent(ops, escrow) == buyin
            &&& escrow != treasury ==> crate::ops::total_sent(ops, treasury) == fee.treasury
            &&& crate::ops::total_destroyed(ops) == fee.burn
        }),
{
    let fee = crate::money::fee_split(a.config.data);
    let burn = crate::grindie::player_burn(
        a.token_program,
        a.mint,
        a.player_ata,
        a.player,
        fee.burn,
    );
    let tax = crate::grindie::player_transfer(
        a.token_program,
        a.mint,
        a.player_ata,
        a.treasury_ata,
        a.player,
        fee.treasury,
    );
    let stake = crate::grindie::player_transfer(
        a.token_program,
        a.mint,
        a.player_ata,
        a.escrow_ata,
        a.player,
        buyin,
    );
    let ops = crate::grindie::entry_ops(a, buyin);
    assert forall|account: Pubkey|
        #![trigger crate::ops::total_taken(ops, account)]
        #![trigger crate::ops::total_sent(ops, account)]
        {
            &&& crate::ops::total_taken(ops, account) == burn.taken_from(account) + tax.taken_from(
                account,
            ) + stake.taken_from(account)
            &&& crate::ops::total_sent(ops, account) == tax.sent_to(account) + stake.sent_to(
                account,
            )
            &&& crate::ops::total_destroyed(ops) == burn.destroyed()
        } by {
        lemma_totals_if_positive(burn, account);
        lemma_totals_if_positive(tax, account);
        lemma_totals_one(stake, account);
        lemma_totals_add(
            crate::ops::if_positive(burn),
            crate::ops::if_positive(tax),
            account,
        );
        lemma_totals_add(
            crate::ops::if_positive(burn) + crate::ops::if_positive(tax),
            seq![stake],
            account,
        );
    }
    assert(crate::ops::total_taken(ops, a.player_ata.info.key) == a.config.data.session_fee
        + buyin);
}

/// A minting burns the mint fee from the player, and moves nothing else.
pub proof fn a_minting_burns_its_fee(a: MintEndingNft)
    ensures
        ({
            let ops = crate::grindie::minting_ops(a);
            let player = a.player_ata.info.key;
            &&& crate::ops::total_taken(ops, player) == a.config.data.nft_mint_fee
            &&& crate::ops::total_destroyed(ops) == a.config.data.nft_mint_fee
            &&& forall|other: Pubkey|
                other != player ==> #[trigger] crate::ops::total_taken(ops, other) == 0
            &&& forall|other: Pubkey| #[trigger] crate::ops::total_sent(ops, other) == 0
        }),
{
    let ops = crate::grindie::minting_ops(a);
    let burn = crate::grindie::player_burn(
        a.token_program,
        a.mint,
        a.player_ata,
        a.player,
        a.config.data.nft_mint_fee,
    );
    assert forall|account: Pubkey|
        #![trigger crate::ops::total_taken(ops, account)]
        #![trigger crate::ops::total_sent(ops, account)]
        {
            &&& crate::ops::total_taken(ops, account) == burn.taken_from(account)
            &&& crate::ops::total_sent(ops, account) == 0
        } by {
        lemma_totals_if_positive(burn, account);
    }
    lemma_totals_if_positive(burn, a.player_ata.info.key);
}

/// The amounts of a settlement add up: escrow pays out the stake, no more and no
/// less, and for a win the vault pays the capped win.
pub proof fn a_settlement_adds_up(
    c: Config,
    s: Session,
    final_stack: u64,
    ending: u8,
    vault_amount: u64,
)
    requires
        crate::money::settle_refusal(c, s, final_stack, ending) is None,
    ensures
        ({
            let x = crate::money::settlement(c, s.buyin, final_stack, ending, vault_amount);
            let win = crate::money::capped_win(c, s.buyin, final_stack);
            &&& x.stake_to_player + x.loss_to_vault + x.loss_burn == s.buyin
            &&& x.win_to_player + x.win_burn == (if final_stack > s.buyin {
                win
            } else {
                0
            })
        }),
{
}

/// A run that gained gets its stake back and a share of the gain; one that lost
/// gets what is left of the stake and nothing from the vault.
pub proof fn winners_and_losers_are_paid(
    c: Config,
    s: Session,
    final_stack: u64,
    ending: u8,
    vault_amount: u64,
)
    requires
        crate::money::settle_refusal(c, s, final_stack, ending) is None,
        c.wf(),
    ensures
        ({
            let x = crate::money::settlement(c, s.buyin, final_stack, ending, vault_amount);
            let win = crate::money::capped_win(c, s.buyin, final_stack);
            let loss = s.buyin - final_stack;
            &&& final_stack > s.buyin ==> {
                &&& x.stake_to_player == s.buyin
                &&& x.win_to_player == crate::money::share(win, c.win_share_bps as int)
                &&& crate::money::share(win, c.win_burn_bps as int) <= x.win_burn
                    <= crate::money::share(win, c.win_burn_bps as int) + 1
            }
            &&& final_stack <= s.buyin ==> {
                &&& x.stake_to_player == final_stack
                &&& x.win_to_player == 0
                &&& x.loss_burn == crate::money::share(loss, c.loss_burn_bps as int)
                &&& crate::money::share(loss, c.loss_vault_bps as int) <= x.loss_to_vault
                    <= crate::money::share(loss, c.loss_vault_bps as int) + 1
            }
        }),
{
    if final_stack > s.buyin {
        let win = crate::money::capped_win(c, s.buyin, final_stack);
        lemma_share_bounded(win as u64, c.win_share_bps);
        the_other_part_gets_the_rounding(win as u64, c.win_share_bps, c.win_burn_bps);
    } else {
        let loss = s.buyin - final_stack;
        lemma_share_bounded(loss as u64, c.loss_burn_bps);
        the_other_part_gets_the_rounding(loss as u64, c.loss_burn_bps, c.loss_vault_bps);
    }
}

/// What a settlement pays the player in all.
pub open spec fn payout(x: Settlement) -> int {
    x.stake_to_player + x.win_to_player
}

/// A player is paid no more than the run ended with, and wins no more than the
/// cap.
pub proof fn the_payout_is_capped(
    c: Config,
    s: Session,
    final_stack: u64,
    ending: u8,
    vault_amount: u64,
)
    requires
        crate::money::settle_refusal(c, s, final_stack, ending) is None,
    ensures
        ({
            let x = crate::money::settlement(c, s.buyin, final_stack, ending, vault_amount);
            &&& payout(x) <= final_stack
            &&& payout(x) <= s.buyin + crate::money::win_cap(c, s.buyin)
            &&& x.win_to_player + x.win_burn <= crate::money::win_cap(c, s.buyin)
        }),
{
    assert(0 <= crate::money::win_cap(c, s.buyin)) by (nonlinear_arith)
        requires
            crate::money::win_cap(c, s.buyin) == s.buyin * c.win_cap_mult,
    ;
}

/// A run that ends with more is not paid less.
pub proof fn a_larger_stack_pays_no_less(
    c: Config,
    s: Session,
    lower: u64,
    higher: u64,
    ending: u8,
    vault_amount: u64,
)
    requires
        c.wf(),
        lower <= higher,
        crate::money::settle_refusal(c, s, lower, ending) is None,
        crate::money::settle_refusal(c, s, higher, ending) is None,
    ensures
        payout(crate::money::settlement(c, s.buyin, lower, ending, vault_amount)) <= payout(
            crate::money::settlement(c, s.buyin, higher, ending, vault_amount),
        ),
{
    if lower > s.buyin {
        let w1 = crate::money::capped_win(c, s.buyin, lower);
        let w2 = crate::money::capped_win(c, s.buyin, higher);
        lemma_share_bounded(w1 as u64, c.win_share_bps);
        lemma_share_bounded(w2 as u64, c.win_share_bps);
        shares_grow_with_the_amount(w1, w2, c.win_share_bps as int);
    }
}

/// A run that ends where it started gets the stake back, and nothing is burned
/// or kept for it.
pub proof fn breaking_even_costs_nothing(
    c: Config,
    s: Session,
    ending: u8,
    vault_amount: u64,
)
    requires
        crate::money::settle_refusal(c, s, s.buyin, ending) is None,
    ensures
        ({
            let x = crate::money::settlement(c, s.buyin, s.buyin, ending, vault_amount);
            &&& payout(x) == s.buyin
            &&& x.win_burn == 0
            &&& x.loss_to_vault == 0
            &&& x.loss_burn == 0
        }),
{
}

/// The extra burn is made for the one ending alone, and takes no more than is
/// configured, nor more than the vault held when the instruction began.
pub proof fn the_extra_burn_is_bounded(c: Config, ending: u8, vault_amount: u64)
    ensures
        crate::money::rekt_burn(c, ending, vault_amount) <= c.rekt_forever_burn,
        crate::money::rekt_burn(c, ending, vault_amount) <= vault_amount,
        ending != END_REKT_FOREVER ==> crate::money::rekt_burn(c, ending, vault_amount) == 0,
        ending == END_REKT_FOREVER && c.rekt_forever_burn <= vault_amount
            ==> crate::money::rekt_burn(c, ending, vault_amount) == c.rekt_forever_burn,
{
}

/// A vault that held the largest win of the session and the configured extra
/// burn is not overdrawn by its settlement.
pub proof fn a_full_vault_can_pay(
    c: Config,
    s: Session,
    final_stack: u64,
    ending: u8,
    vault_amount: u64,
)
    requires
        crate::money::settle_refusal(c, s, final_stack, ending) is None,
        crate::money::win_cap(c, s.buyin) + c.rekt_forever_burn <= vault_amount,
    ensures
        ({
            let x = crate::money::settlement(c, s.buyin, final_stack, ending, vault_amount);
            x.win_to_player + x.win_burn + x.rekt_burn <= vault_amount
        }),
{
    the_payout_is_capped(c, s, final_stack, ending, vault_amount);
}

/// The totals of the instructions of a settlement, one by one.
proof fn lemma_settlement_totals(a: FinalizeArena, x: Settlement, account: Pubkey)
    ensures
        ({
            let ops = crate::grindie::settlement_ops(a, x);
            let stake = crate::grindie::escrow_transfer(a, a.player_ata, x.stake_to_player);
            let win = crate::grindie::vault_transfer(a, x.win_to_player);
            let win_burn = crate::grindie::vault_burn(a, x.win_burn);
            let loss = crate::grindie::escrow_transfer(a, a.vault_ata, x.loss_to_vault);
            let loss_burn = crate::grindie::escrow_burn(a, x.loss_burn);
            let rekt = crate::grindie::vault_burn(a, x.rekt_burn);
            &&& crate::ops::total_taken(ops, account) == stake.taken_from(account)
                + win.taken_from(account) + win_burn.taken_from(account) + loss.taken_from(account)
                + loss_burn.taken_from(account) + rekt.taken_from(account)
            &&& crate::ops::total_sent(ops, account) == stake.sent_to(account) + win.sent_to(
                account,
            ) + loss.sent_to(account)
            &&& crate::ops::total_destroyed(ops) == x.win_burn + x.loss_burn + x.rekt_burn
        }),
{
    let stake = crate::grindie::escrow_transfer(a, a.player_ata, x.stake_to_player);
    let s0 = if x.won {
        seq![stake]
    } else {
        crate::ops::if_positive(stake)
    };
    let win = crate::grindie::vault_transfer(a, x.win_to_player);
    let win_burn = crate::grindie::vault_burn(a, x.win_burn);
    let loss = crate::grindie::escrow_transfer(a, a.vault_ata, x.loss_to_vault);
    let loss_burn = crate::grindie::escrow_burn(a, x.loss_burn);
    let rekt = crate::grindie::vault_burn(a, x.rekt_burn);
    let s1 = s0 + crate::ops::if_positive(win);
    let s2 = s1 + crate::ops::if_positive(win_burn);
    let s3 = s2 + crate::ops::if_positive(loss);
    let s4 = s3 + crate::ops::if_positive(loss_burn);
    lemma_totals_one(stake, account);
    lemma_totals_if_positive(stake, account);
    lemma_totals_if_positive(win, account);
    lemma_totals_if_positive(win_burn, account);
    lemma_totals_if_positive(loss, account);
    lemma_totals_if_positive(loss_burn, account);
    lemma_totals_if_positive(rekt, account);
    lemma_totals_add(s0, crate::ops::if_positive(win), account);
    lemma_totals_add(s1, crate::ops::if_positive(win_burn), account);
    lemma_totals_add(s2, crate::ops::if_positive(loss), account);
    lemma_totals_add(s3, crate::ops::if_positive(loss_burn), account);
    lemma_totals_add(s4, crate::ops::if_positive(rekt), account);
}

/// The instructions of a settlement empty the escrow of the stake and of nothing
/// else, pay the player what is theirs, take from the vault the capped win and
/// the extra burn, and touch no other account.
pub proof fn a_settlement_moves_what_it_says(a: FinalizeArena, final_stack: u64, ending: u8)
    requires
        crate::money::settle_refusal(
            a.config.data,
            a.session.data,
            final_stack,
            ending,
        ) is None,
    ensures
        ({
            let x = crate::grindie::arena_settlement(a, final_stack, ending);
            let ops = crate::grindie::settlement_ops(a, x);
            let player = a.player_ata.info.key;
            let escrow = a.escrow_ata.info.key;
            let vault = a.vault_ata.info.key;
            &&& escrow != vault ==> {
                &&& crate::ops::total_taken(ops, escrow) == a.session.data.buyin
                &&& crate::ops::total_taken(ops, vault) == x.win_to_player + x.win_burn
                    + x.rekt_burn
            }
            &&& player != vault ==> {
                &&& crate::ops::total_sent(ops, player) == payout(x)
                &&& crate::ops::total_sent(ops, vault) == x.loss_to_vault
            }
            &&& crate::ops::total_destroyed(ops) == x.win_burn + x.loss_burn + x.rekt_burn
            &&& escrow != vault && player != vault ==> crate::ops::total_taken(ops, escrow)
                + crate::ops::total_taken(ops, vault) == crate::ops::total_sent(ops, player)
                + crate::ops::total_sent(ops, vault) + crate::ops::total_destroyed(ops)
            &&& forall|other: Pubkey|
                other != escrow && other != vault ==> #[trigger] crate::ops::total_taken(ops, other)
                    == 0
            &&& forall|other: Pubkey|
                other != player && other != vault ==> #[trigger] crate::ops::total_sent(ops, other)
                    == 0
        }),
{
    let x = crate::grindie::arena_settlement(a, final_stack, ending);
    let ops = crate::grindie::settlement_ops(a, x);
    lemma_settlement_totals(a, x, a.player_ata.info.key);
    lemma_settlement_totals(a, x, a.escrow_ata.info.key);
    lemma_settlement_totals(a, x, a.vault_ata.info.key);
    assert forall|other: Pubkey|
        other != a.escrow_ata.info.key && other
            != a.vault_ata.info.key implies #[trigger] crate::ops::total_taken(ops, other)
        == 0 by {
        lemma_settlement_totals(a, x, other);
    }
    assert forall|other: Pubkey|
        other != a.player_ata.info.key && other
            != a.vault_ata.info.key implies #[trigger] crate::ops::total_sent(ops, other) == 0 by {
        lemma_settlement_totals(a, x, other);
    }
}

/// What entering puts into escrow is what settling takes out of it.
pub proof fn the_escrow_ends_empty(
    start: StartArena,
    end: FinalizeArena,
    holdings: u64,
    buyin: u64,
    final_stack: u64,
    ending: u8,
)
    requires
        crate::money::entry_refusal(start.config.data, holdings, buyin) is None,
        crate::money::settle_refusal(
            end.config.data,
            end.session.data,
            final_stack,
            ending,
        ) is None,
        end.session.data.buyin == buyin,
        start.escrow_ata.info.key != start.treasury_ata.info.key,
        end.escrow_ata.info.key != end.vault_ata.info.key,
    ensures
        crate::ops::total_sent(
            crate::grindie::entry_ops(start, buyin),
            start.escrow_ata.info.key,
        ) == crate::ops::total_taken(
            crate::grindie::settlement_ops(
                end,
                crate::grindie::arena_settlement(end, final_stack, ending),
            ),
            end.escrow_ata.info.key,
        ),
{
    an_entry_costs_the_fee_and_the_stake(start, holdings, buyin);
    a_settlement_moves_what_it_says(end, final_stack, ending);
}

/// The token program is not bothered with amounts of zero, but for the stake of
/// an entry and the returned stake of a winner.
pub proof fn only_stakes_may_be_zero(
    start: StartArena,
    buyin: u64,
    end: FinalizeArena,
    x: Settlement,
)
    ensures
        forall|i: int|
            0 <= i < crate::grindie::entry_ops(start, buyin).len() - 1
                ==> (#[trigger] crate::grindie::entry_ops(start, buyin)[i]).amount() > 0,
        forall|i: int|
            0 <= i < crate::grindie::settlement_ops(end, x).len() && !(x.won && i == 0)
                ==> (#[trigger] crate::grindie::settlement_ops(end, x)[i]).amount() > 0,
{
}

} // verus!
