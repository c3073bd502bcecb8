//! The arithmetic of entries and settlements.
use grindie::error::GrindieError;
use grindie::money::{enter, mul_bps, settle, FeeSplit, Settlement};
use grindie::pubkey::Pubkey;
use grindie::state::{
    Config, Session, ENDING_NONE, END_GIGA_GRINDER, END_MADE_IT, END_MAX, END_REKT,
    END_REKT_BUT_BUILT, END_REKT_FOREVER, END_SURVIVED, STATUS_ACTIVE, STATUS_FINALIZED,
};

fn config() -> Config {
    Config {
        admin: Pubkey { bytes: [1; 32] },
        mint: Pubkey { bytes: [2; 32] },
        outcome_authority: Pubkey { bytes: [3; 32] },
        content_root: [0; 32],
        holder_threshold: 500,
        buyin_min: 100,
        buyin_max: 1_000_000,
        session_fee: 101,
        nft_mint_fee: 25,
        rekt_forever_burn: 400,
        fee_burn_bps: 5_000,
        fee_treasury_bps: 5_000,
        win_share_bps: 8_000,
        win_burn_bps: 2_000,
        loss_vault_bps: 7_000,
        loss_burn_bps: 3_000,
        jackpot_share_bps: 1_000,
        win_cap_mult: 3,
        paused: false,
        bump: 255,
        vault_bump: 254,
        treasury_bump: 253,
    }
}

fn session(buyin: u64) -> Session {
    Session {
        player: Pubkey { bytes: [9; 32] },
        session_id: 7,
        buyin,
        start_stack: buyin,
        final_stack: 0,
        choices_hash: [0; 32],
        status: STATUS_ACTIVE,
        ending: ENDING_NONE,
        created_slot: 42,
        bump: 252,
        escrow_bump: 251,
    }
}

fn payout(x: &Settlement) -> u64 {
    x.stake_to_player + x.win_to_player
}

#[test]
fn shares_are_rounded_down() {
    assert_eq!(mul_bps(10_000, 2_500), Ok(2_500));
    assert_eq!(mul_bps(101, 5_000), Ok(50));
    assert_eq!(mul_bps(9_999, 1), Ok(0));
    assert_eq!(mul_bps(0, 10_000), Ok(0));
    assert_eq!(mul_bps(123, 0), Ok(0));
}

#[test]
fn a_whole_share_is_the_amount() {
    assert_eq!(mul_bps(u64::MAX, 10_000), Ok(u64::MAX));
    assert_eq!(mul_bps(u64::MAX, 9_999), Ok(18_444_899_399_302_180_659));
}

#[test]
fn a_share_of_more_than_a_whole_keeps_its_low_bits() {
    assert_eq!(mul_bps(100, 20_000), Ok(200));
    assert_eq!(mul_bps(u64::MAX, 20_000), Ok(u64::MAX - 1));
    assert_eq!(mul_bps(1 << 63, 40_000), Ok(0));
}

#[test]
fn complementary_shares_lose_at_most_one() {
    for amount in [0u64, 1, 2, 3, 7, 99, 101, 10_001, u64::MAX] {
        for bps in [0u16, 1, 3_333, 5_000, 9_999, 10_000] {
            let a = mul_bps(amount, bps).unwrap();
            let b = mul_bps(amount, 10_000 - bps).unwrap();
            assert!(amount - a == b || amount - a == b + 1);
        }
    }
}

#[test]
fn the_fee_is_split_whole_with_the_rounding_to_the_treasury() {
    let r = enter(&config(), 500, 100);
    assert_eq!(r, Ok(FeeSplit { burn: 50, treasury: 51 }));
}

#[test]
fn no_one_enters_a_paused_program() {
    let c = Config { paused: true, ..config() };
    assert_eq!(enter(&c, 0, 0), Err(GrindieError::Paused));
    assert_eq!(enter(&c, 500, 100), Err(GrindieError::Paused));
}

#[test]
fn the_stake_lies_in_its_range() {
    let c = config();
    assert_eq!(enter(&c, 500, 99), Err(GrindieError::BuyinOutOfRange));
    assert_eq!(enter(&c, 500, 1_000_001), Err(GrindieError::BuyinOutOfRange));
    assert!(enter(&c, 500, 100).is_ok());
    assert!(enter(&c, 500, 1_000_000).is_ok());
}

#[test]
fn only_holders_enter() {
    let c = config();
    assert_eq!(enter(&c, 499, 100), Err(GrindieError::NotHolder));
    assert!(enter(&c, 500, 100).is_ok());
}

#[test]
fn the_range_is_checked_before_the_holdings() {
    assert_eq!(enter(&config(), 0, 0), Err(GrindieError::BuyinOutOfRange));
}

#[test]
fn a_fee_that_burns_more_than_itself_overflows() {
    let c = Config { fee_burn_bps: 10_100, ..config() };
    assert_eq!(enter(&c, 500, 100), Err(GrindieError::Overflow));
}

#[test]
fn a_win_is_shared_and_burned() {
    let x = settle(&config(), &session(1_000), 1_501, END_MADE_IT, 0).unwrap();
    assert_eq!(
        x,
        Settlement {
            won: true,
            stake_to_player: 1_000,
            win_to_player: 400,
            win_burn: 101,
            loss_to_vault: 0,
            loss_burn: 0,
            rekt_burn: 0,
        }
    );
}

#[test]
fn a_win_is_capped_at_three_stakes() {
    let at = settle(&config(), &session(1_000), 4_000, END_GIGA_GRINDER, 0).unwrap();
    let above = settle(&config(), &session(1_000), u64::MAX, END_GIGA_GRINDER, 0).unwrap();
    assert_eq!(at, above);
    assert_eq!(at.win_to_player, 2_400);
    assert_eq!(at.win_burn, 600);
}

#[test]
fn a_loss_is_split_between_the_vault_and_the_burn() {
    let x = settle(&config(), &session(1_000), 499, END_REKT, 10_000).unwrap();
    assert_eq!(
        x,
        Settlement {
            won: false,
            stake_to_player: 499,
            win_to_player: 0,
            win_burn: 0,
            loss_to_vault: 351,
            loss_burn: 150,
            rekt_burn: 0,
        }
    );
}

#[test]
fn a_total_loss_leaves_the_player_nothing() {
    let x = settle(&config(), &session(1_000), 0, END_REKT, 0).unwrap();
    assert_eq!(payout(&x), 0);
    assert_eq!(x.loss_to_vault + x.loss_burn, 1_000);
}

#[test]
fn breaking_even_returns_the_stake() {
    let x = settle(&config(), &session(1_000), 1_000, END_SURVIVED, 0).unwrap();
    assert!(!x.won);
    assert_eq!(payout(&x), 1_000);
    assert_eq!(x.loss_to_vault + x.loss_burn + x.win_burn + x.rekt_burn, 0);
}

#[test]
fn the_extra_burn_is_bounded_by_the_vault() {
    let c = config();
    let s = session(1_000);
    assert_eq!(settle(&c, &s, 0, END_REKT_FOREVER, 10_000).unwrap().rekt_burn, 400);
    assert_eq!(settle(&c, &s, 0, END_REKT_FOREVER, 400).unwrap().rekt_burn, 400);
    assert_eq!(settle(&c, &s, 0, END_REKT_FOREVER, 399).unwrap().rekt_burn, 399);
    assert_eq!(settle(&c, &s, 0, END_REKT_FOREVER, 0).unwrap().rekt_burn, 0);
}

#[test]
fn the_extra_burn_is_for_one_ending_alone() {
    let endings =
        [END_GIGA_GRINDER, END_MADE_IT, END_REKT_BUT_BUILT, END_SURVIVED, END_REKT];
    for ending in endings {
        let x = settle(&config(), &session(1_000), 0, ending, 10_000).unwrap();
        assert_eq!(x.rekt_burn, 0);
    }
}

#[test]
fn an_unknown_ending_is_refused_first() {
    let s = Session { status: STATUS_FINALIZED, ..session(1_000) };
    assert_eq!(END_MAX, 5);
    assert_eq!(settle(&config(), &s, 0, 6, 0), Err(GrindieError::BadEnding));
    assert_eq!(settle(&config(), &s, 0, ENDING_NONE, 0), Err(GrindieError::BadEnding));
}

#[test]
fn a_settled_session_is_not_settled_again() {
    let s = Session { status: STATUS_FINALIZED, ..session(1_000) };
    assert_eq!(settle(&config(), &s, 0, END_REKT, 0), Err(GrindieError::SessionFinalized));
}

#[test]
fn a_cap_that_does_not_fit_overflows_for_a_win_alone() {
    let c = Config { win_cap_mult: 255, ..config() };
    let s = session(u64::MAX / 2);
    assert_eq!(settle(&c, &s, u64::MAX, END_MADE_IT, 0), Err(GrindieError::Overflow));
    assert!(settle(&c, &s, 0, END_REKT, 0).is_ok());
}

#[test]
fn shares_of_more_than_a_whole_overflow() {
    let c = Config { win_share_bps: 10_001, loss_burn_bps: 10_001, ..config() };
    let s = session(10_000);
    assert_eq!(settle(&c, &s, 30_000, END_MADE_IT, 0), Err(GrindieError::Overflow));
    assert_eq!(settle(&c, &s, 0, END_REKT, 0), Err(GrindieError::Overflow));
}

#[test]
fn escrow_pays_out_the_stake_and_the_player_no_more_than_the_stack() {
    let c = config();
    for stake in [0u64, 1, 3, 100, 999] {
        let mut last = 0;
        for stack in 0..3_000u64 {
            let x = settle(&c, &session(stake), stack, END_SURVIVED, 0).unwrap();
            assert_eq!(x.stake_to_player + x.loss_to_vault + x.loss_burn, stake);
            assert!(payout(&x) <= stack);
            assert!(payout(&x) <= 4 * stake);
            assert!(payout(&x) >= last);
            last = payout(&x);
        }
    }
}

#[test]
fn a_pause_does_not_touch_a_settlement() {
    let c = config();
    let paused = Config { paused: true, ..c };
    let s = session(1_000);
    for stack in [0u64, 500, 1_000, 2_000, 9_000] {
        assert_eq!(
            settle(&c, &s, stack, END_REKT_FOREVER, 123),
            settle(&paused, &s, stack, END_REKT_FOREVER, 123)
        );
    }
}

#[test]
fn a_full_vault_is_not_overdrawn() {
    let c = config();
    for stack in [1_001u64, 2_000, 4_000, 90_000] {
        let x = settle(&c, &session(1_000), stack, END_REKT_FOREVER, 3_400).unwrap();
        assert!(x.win_to_player + x.win_burn + x.rekt_burn <= 3_400);
    }
}
