//! Totals over lists of token instructions.
use crate::ops::TokenOp;
use crate::pubkey::Pubkey;
use vstd::prelude::*;

verus! {

/// The totals of a list in two parts are the sums of those of its parts.
pub proof fn lemma_totals_add(s: Seq<TokenOp>, t: Seq<TokenOp>, account: Pubkey)
    ensures
        crate::ops::total_taken(s + t, account) == crate::ops::total_taken(s, account)
            + crate::ops::total_taken(t, account),
        crate::ops::total_sent(s + t, account) == crate::ops::total_sent(s, account)
            + crate::ops::total_sent(t, account),
        crate::ops::total_destroyed(s + t) == crate::ops::total_destroyed(s)
            + crate::ops::total_destroyed(t),
    decreases t.len(),
{
    if t.len() == 0 {
        assert(s + t =~= s);
    } else {
        lemma_totals_add(s, t.drop_last(), account);
        assert((s + t).drop_last() =~= s + t.drop_last());
        assert((s + t).last() == t.last());
    }
}

/// The totals of one instruction are its own.
pub proof fn lemma_totals_one(op: TokenOp, account: Pubkey)
    ensures
        crate::ops::total_taken(seq![op], account) == op.taken_from(account),
        crate::ops::total_sent(seq![op], account) == op.sent_to(account),
        crate::ops::total_destroyed(seq![op]) == op.destroyed(),
{
    assert(seq![op].drop_last() =~= Seq::<TokenOp>::empty());
    assert(seq![op].last() == op);
    reveal_with_fuel(crate::ops::total_taken, 2);
    reveal_with_fuel(crate::ops::total_sent, 2);
    reveal_with_fuel(crate::ops::total_destroyed, 2);
}

/// An instruction that is left out where its amount is zero counts as if it were
/// there.
pub proof fn lemma_totals_if_positive(op: TokenOp, account: Pubkey)
    ensures
        crate::ops::total_taken(crate::ops::if_positive(op), account) == op.taken_from(account),
        crate::ops::total_sent(crate::ops::if_positive(op), account) == op.sent_to(account),
        crate::ops::total_destroyed(crate::ops::if_positive(op)) == op.destroyed(),
{
    if op.amount() > 0 {
        lemma_totals_one(op, account);
    }
}

} // verus!
