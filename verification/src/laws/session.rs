//! Laws of the life of a session.
use crate::accounts::Context;
use crate::contexts::{FinalizeArena, StartArena, StartArenaBumps};
use crate::error::GrindieError;
use crate::state::{Config, Session, ENDING_NONE, END_MAX, STATUS_ACTIVE, STATUS_FINALIZED};
use vstd::prelude::*;

verus! {

/// A started session is well formed and open: it starts with its stake, and
/// holds no result.
pub proof fn started_sessions_are_open(
    ctx: Context<StartArena, StartArenaBumps>,
    session_id: u64,
    buyin: u64,
    slot: u64,
)
    ensures
        ({
            let s = crate::grindie::started(ctx, session_id, buyin, slot).accounts.session.data;
            &&& s.wf()
            &&& s.status == STATUS_ACTIVE
            &&& s.start_stack == s.buyin == buyin
            &&& s.ending == ENDING_NONE
        }),
{
}

/// A settlement keeps a session well formed, records the result, and leaves who
/// played, for what stake, since when and at which addresses.
pub proof fn settled_sessions_keep_their_stake(
    ctx: Context<FinalizeArena, ()>,
    final_stack: u64,
    ending: u8,
    choices_hash: [u8; 32],
)
    requires
        ctx.accounts.session.data.wf(),
        crate::money::settle_refusal(
            ctx.accounts.config.data,
            ctx.accounts.session.data,
            final_stack,
            ending,
        ) is None,
    ensures
        ({
            let s = ctx.accounts.session.data;
            let t = crate::grindie::finalized(
                ctx,
                final_stack,
                ending,
                choices_hash,
            ).accounts.session.data;
            &&& t.wf()
            &&& t.status == STATUS_FINALIZED
            &&& t.final_stack == final_stack
            &&& t.ending == ending
            &&& t.choices_hash == choices_hash
            &&& t.player == s.player
            &&& t.session_id == s.session_id
            &&& t.buyin == s.buyin
            &&& t.start_stack == s.start_stack
            &&& t.created_slot == s.created_slot
            &&& t.bump == s.bump
            &&& t.escrow_bump == s.escrow_bump
        }),
{
}

/// A session is settled once: after a settlement no result is accepted, and a
/// known ending is answered with `SessionFinalized`.
pub proof fn sessions_are_settled_once(
    ctx: Context<FinalizeArena, ()>,
    final_stack: u64,
    ending: u8,
    choices_hash: [u8; 32],
    c: Config,
    next_stack: u64,
    next_ending: u8,
)
    ensures
        ({
            let s = crate::grindie::finalized(
                ctx,
                final_stack,
                ending,
                choices_hash,
            ).accounts.session.data;
            let refusal = crate::money::settle_refusal(c, s, next_stack, next_ending);
            &&& refusal is Some
            &&& next_ending <= END_MAX ==> refusal == Some(GrindieError::SessionFinalized)
        }),
{
}

/// Under a valid configuration a settlement is refused only for an unknown
/// ending, for a session that is settled already, or where the win cap does not
/// fit into 64 bits: no loss is ever refused for its arithmetic.
pub proof fn open_sessions_can_be_settled(c: Config, s: Session, final_stack: u64, ending: u8)
    requires
        c.wf(),
    ensures
        crate::money::settle_refusal(c, s, final_stack, ending) == (if ending > END_MAX {
            Some(GrindieError::BadEnding)
        } else if s.status != STATUS_ACTIVE {
            Some(GrindieError::SessionFinalized)
        } else if final_stack > s.buyin && crate::money::win_cap(c, s.buyin) > u64::MAX {
            Some(GrindieError::Overflow)
        } else {
            None
        }),
{
    if final_stack > s.buyin {
        let win = crate::money::capped_win(c, s.buyin, final_stack);
        crate::money::lemma_share_bounded(win as u64, c.win_share_bps);
    } else {
        crate::money::lemma_share_bounded((s.buyin - final_stack) as u64, c.loss_burn_bps);
    }
}

/// A valid configuration refuses an entry only because the program is paused,
/// the stake is out of range, or the player does not hold enough.
pub proof fn entries_do_not_overflow(c: Config, holdings: u64, buyin: u64)
    requires
        c.wf(),
    ensures
        crate::money::entry_refusal(c, holdings, buyin) != Some(GrindieError::Overflow),
        crate::money::entry_refusal(c, holdings, buyin) is None <==> {
            &&& !c.paused
            &&& c.buyin_min <= buyin <= c.buyin_max
            &&& c.holder_threshold <= holdings
        },
{
    crate::money::lemma_share_bounded(c.session_fee, c.fee_burn_bps);
}

/// A pause stops new sessions and nothing else: no one enters, while the
/// settlement of an open session does not depend on it.
pub proof fn a_pause_stops_entries_alone(
    c: Config,
    s: Session,
    holdings: u64,
    buyin: u64,
    final_stack: u64,
    ending: u8,
    vault_amount: u64,
)
    ensures
        ({
            let paused = Config { paused: true, ..c };
            &&& crate::money::entry_refusal(paused, holdings, buyin) == Some(GrindieError::Paused)
            &&& crate::money::settle_refusal(paused, s, final_stack, ending)
                == crate::money::settle_refusal(c, s, final_stack, ending)
            &&& crate::money::settlement(paused, s.buyin, final_stack, ending, vault_amount)
                == crate::money::settlement(c, s.buyin, final_stack, ending, vault_amount)
        }),
{
}

} // verus!
