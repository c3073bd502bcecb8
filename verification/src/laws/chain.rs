//! Laws of the program over time: what stays, what happens only once, and what a
//! shutdown leaves.
use crate::accounts::AccountInfo;
use crate::chain::{lemma_step_writes, Chain, Data, Event, History, Instruction};
use crate::contexts::{
    CloseConfig, CloseTreasuryAta, CloseVaultAta, Initialize, MintEndingNft, StartArena,
    WithdrawTreasury, WithdrawVault,
};
use crate::ops::TokenOp;
use crate::pda::Pda;
use crate::pubkey::Pubkey;
use crate::state::{Config, ConfigParams, Session, STATUS_FINALIZED};
use vstd::prelude::*;

verus! {

/// An event keeps the books in order.
proof fn lemma_event_keeps_order(program_id: Pubkey, c: Chain, e: Event, next: Chain)
    requires
        crate::chain::in_order(program_id, c),
        e.leads(program_id, c, next),
    ensures
        crate::chain::in_order(program_id, next),
{
    assert forall|key: Pubkey|
        match #[trigger] next.record(key) {
            Some(Data::Config(x)) => {
                &&& x.wf()
                &&& Pda::Config.found(program_id) matches Some((k, _)) && k == key
            },
            Some(Data::Session(s)) => s.wf(),
            _ => true,
        } by {
        if let Event::Run(i) = e {
            lemma_step_writes(program_id, c, i, key);
            if let Some(x) = i.config() {
                assert(c.record(x.info.key) == Some(Data::Config(x.data)));
            }
            if let Instruction::FinalizeArena { a, .. } = i {
                assert(c.record(a.session.info.key) == Some(Data::Session(a.session.data)));
            }
        }
    }
}

/// Whatever happens, the program keeps its books: there is no configuration but at
/// the one address for it, and every configuration and every session that is
/// stored is valid.
pub proof fn the_books_stay_in_order(program_id: Pubkey, h: History, n: int)
    requires
        h.possible(program_id),
        h.from_nothing(),
        0 <= n < h.chains.len(),
    ensures
        crate::chain::in_order(program_id, h.chains[n]),
    decreases n,
{
    if n > 0 {
        the_books_stay_in_order(program_id, h, n - 1);
        assert(h.events[n - 1].leads(program_id, h.chains[n - 1], h.chains[n - 1 + 1]));
        lemma_event_keeps_order(program_id, h.chains[n - 1], h.events[n - 1], h.chains[n]);
    }
}

/// A receipt that was written is there for good, and never changes.
pub proof fn receipts_are_kept(program_id: Pubkey, h: History, n: int, m: int, key: Pubkey)
    requires
        h.possible(program_id),
        0 <= n <= m < h.chains.len(),
        h.chains[n].record(key) matches Some(Data::Receipt(_)),
    ensures
        h.chains[m].record(key) == h.chains[n].record(key),
    decreases m,
{
    if n < m {
        receipts_are_kept(program_id, h, n, m - 1, key);
        let c = h.chains[m - 1];
        assert(h.events[m - 1].leads(program_id, c, h.chains[m - 1 + 1]));
        if let Event::Run(i) = h.events[m - 1] {
            lemma_step_writes(program_id, c, i, key);
            assert(i.opens().len() > 0 ==> !c.in_use(i.opens()[0]));
        }
    }
}

/// `t` is the session `s`, at the same time or later: who played, for what stake,
/// since when and at which addresses is the same, and a result that was recorded
/// stays.
pub open spec fn same_session(s: Session, t: Session) -> bool {
    &&& t.player == s.player
    &&& t.session_id == s.session_id
    &&& t.buyin == s.buyin
    &&& t.start_stack == s.start_stack
    &&& t.created_slot == s.created_slot
    &&& t.bump == s.bump
    &&& t.escrow_bump == s.escrow_bump
    &&& s.status == STATUS_FINALIZED ==> t == s
}

/// A session that was started is there for good: it keeps its player and its
/// stake, and once it is settled it never changes.
pub proof fn sessions_are_kept(
    program_id: Pubkey,
    h: History,
    n: int,
    m: int,
    key: Pubkey,
    s: Session,
)
    requires
        h.possible(program_id),
        0 <= n <= m < h.chains.len(),
        h.chains[n].record(key) == Some(Data::Session(s)),
    ensures
        h.chains[m].record(key) matches Some(Data::Session(t)) && same_session(s, t),
    decreases m,
{
    if n < m {
        sessions_are_kept(program_id, h, n, m - 1, key, s);
        let c = h.chains[m - 1];
        assert(h.events[m - 1].leads(program_id, c, h.chains[m - 1 + 1]));
        if let Event::Run(i) = h.events[m - 1] {
            lemma_step_writes(program_id, c, i, key);
            assert(i.opens().len() > 0 ==> !c.in_use(i.opens()[0]));
        }
    }
}

/// There is one session for each player and session id: once a player has started
/// it, starting it again fails, with whatever accounts and stake, and whether or
/// not it was settled meanwhile. The session that was started is kept.
pub proof fn a_session_is_started_once(
    program_id: Pubkey,
    h: History,
    n: int,
    first: StartArena,
    session_id: u64,
    buyin: u64,
    slot: u64,
    m: int,
    second: StartArena,
    next_buyin: u64,
    next_slot: u64,
)
    requires
        h.possible(program_id),
        h.runs(n, Instruction::StartArena { a: first, session_id, buyin, slot }),
        n < m < h.chains.len(),
        second.player.key == first.player.key,
    ensures
        h.chains[m].step(
            program_id,
            Instruction::StartArena {
                a: second,
                session_id,
                buyin: next_buyin,
                slot: next_slot,
            },
        ) is None,
        h.chains[m].record(first.session.info.key) matches Some(Data::Session(s)) && {
            &&& s.player == first.player.key
            &&& s.session_id == session_id
            &&& s.buyin == buyin
            &&& s.created_slot == slot
        },
{
    let i = Instruction::StartArena { a: first, session_id, buyin, slot };
    let j = Instruction::StartArena { a: second, session_id, buyin: next_buyin, slot: next_slot };
    let key = first.session.info.key;
    assert(h.events[n].leads(program_id, h.chains[n], h.chains[n + 1]));
    lemma_step_writes(program_id, h.chains[n], i, key);
    let s = (h.chains[n + 1].record(key)->0)->Session_0;
    sessions_are_kept(program_id, h, n + 1, m, key, s);
    assert(h.chains[m].in_use(key));
    assert(j.opens()[0] == second.session.info.key);
}

/// A session takes up no address but its own: whoever else could create their
/// session and escrow accounts before a session was started, under the same id or
/// another, still can.
pub proof fn other_players_can_use_the_id(
    program_id: Pubkey,
    c: Chain,
    first: StartArena,
    session_id: u64,
    buyin: u64,
    slot: u64,
    other: StartArena,
    other_id: u64,
    other_buyin: u64,
    other_slot: u64,
)
    requires
        ({
            let i = Instruction::StartArena { a: first, session_id, buyin, slot };
            let j = Instruction::StartArena {
                a: other,
                session_id: other_id,
                buyin: other_buyin,
                slot: other_slot,
            };
            &&& c.step(program_id, i) is Some
            &&& j.can_open(c)
            &&& forall|x: int, y: int|
                0 <= x < 2 && 0 <= y < 2 ==> #[trigger] i.opens()[x] != #[trigger] j.opens()[y]
        }),
    ensures
        ({
            let i = Instruction::StartArena { a: first, session_id, buyin, slot };
            let j = Instruction::StartArena {
                a: other,
                session_id: other_id,
                buyin: other_buyin,
                slot: other_slot,
            };
            j.can_open(c.step(program_id, i)->0)
        }),
{
    let i = Instruction::StartArena { a: first, session_id, buyin, slot };
    let j = Instruction::StartArena {
        a: other,
        session_id: other_id,
        buyin: other_buyin,
        slot: other_slot,
    };
    let after = c.step(program_id, i)->0;
    assert forall|y: int| 0 <= y < j.opens().len() implies !after.in_use(
        #[trigger] j.opens()[y],
    ) by {
        let key = j.opens()[y];
        assert(i.opens()[0] != key && i.opens()[1] != key);
        lemma_tokens_use_no_new_address(i.opened(c), i.ops(), key);
    }
}

/// The token program takes up no address that is not in use.
proof fn lemma_tokens_use_no_new_address(c: Chain, ops: Seq<TokenOp>, key: Pubkey)
    requires
        c.apply_all(ops) is Some,
        !c.in_use(key),
    ensures
        !(c.apply_all(ops)->0).in_use(key),
    decreases ops.len(),
{
    if ops.len() > 0 {
        lemma_tokens_use_no_new_address(c, ops.drop_last(), key);
    }
}

/// An ending is minted at most once for each player and session: once it was, a
/// second minting fails, with whatever ending, texts, asset and other accounts. The
/// receipt is kept.
pub proof fn an_ending_is_minted_once(
    program_id: Pubkey,
    h: History,
    n: int,
    first: MintEndingNft,
    session_id: u64,
    ending: u8,
    name: Seq<char>,
    uri: Seq<char>,
    m: int,
    second: MintEndingNft,
    next_ending: u8,
    next_name: Seq<char>,
    next_uri: Seq<char>,
)
    requires
        h.possible(program_id),
        h.runs(n, Instruction::MintEndingNft { a: first, session_id, ending, name, uri }),
        n < m < h.chains.len(),
        second.player.key == first.player.key,
    ensures
        h.chains[m].step(
            program_id,
            Instruction::MintEndingNft {
                a: second,
                session_id,
                ending: next_ending,
                name: next_name,
                uri: next_uri,
            },
        ) is None,
        h.chains[m].record(first.receipt.info.key) matches Some(Data::Receipt(r)) && {
            &&& r.player == first.player.key
            &&& r.session_id == session_id
            &&& r.ending == ending
        },
{
    let i = Instruction::MintEndingNft { a: first, session_id, ending, name, uri };
    let j = Instruction::MintEndingNft {
        a: second,
        session_id,
        ending: next_ending,
        name: next_name,
        uri: next_uri,
    };
    let key = first.receipt.info.key;
    assert(h.events[n].leads(program_id, h.chains[n], h.chains[n + 1]));
    lemma_step_writes(program_id, h.chains[n], i, key);
    receipts_are_kept(program_id, h, n + 1, m, key);
    assert(h.chains[m].in_use(key));
    assert(j.opens()[0] == second.receipt.info.key);
}

/// The account that has to be the admin, for an instruction of the admin that
/// changes or closes the configuration.
pub open spec fn administrator(i: Instruction) -> Option<AccountInfo> {
    match i {
        Instruction::UpdateConfig { a, .. } => Some(a.admin),
        Instruction::SetOutcomeAuthority { a, .. } => Some(a.admin),
        Instruction::SetAdmin { a, .. } => Some(a.admin),
        Instruction::SetMint { a, .. } => Some(a.admin),
        Instruction::SetContentRoot { a, .. } => Some(a.admin),
        Instruction::SetPaused { a, .. } => Some(a.admin),
        Instruction::CloseConfig { a } => Some(a.admin),
        _ => None,
    }
}

/// A configuration changes, or goes, only by an instruction that its admin has
/// signed.
pub proof fn only_the_admin_changes_the_config(
    program_id: Pubkey,
    c: Chain,
    e: Event,
    next: Chain,
    key: Pubkey,
    x: Config,
)
    requires
        e.leads(program_id, c, next),
        c.record(key) == Some(Data::Config(x)),
        next.record(key) != c.record(key),
    ensures
        e matches Event::Run(i) && administrator(i) matches Some(admin) && {
            &&& admin.is_signer
            &&& admin.key == x.admin
        },
{
    if let Event::Run(i) = e {
        lemma_step_writes(program_id, c, i, key);
        assert(i.opens().len() > 0 ==> !c.in_use(i.opens()[0]));
    }
}

/// The events after the `n`th and before the `m`th state close no configuration.
pub open spec fn no_closure_between(h: History, n: int, m: int) -> bool {
    forall|k: int|
        n < k < m ==> !(#[trigger] h.events[k] matches Event::Run(i) && i is CloseConfig)
}

/// A configuration is there until it is closed.
pub proof fn a_config_is_kept_until_it_is_closed(
    program_id: Pubkey,
    h: History,
    n: int,
    m: int,
    key: Pubkey,
)
    requires
        h.possible(program_id),
        0 <= n < m < h.chains.len(),
        h.chains[n + 1].record(key) matches Some(Data::Config(_)),
        no_closure_between(h, n, m),
    ensures
        h.chains[m].record(key) matches Some(Data::Config(_)),
    decreases m,
{
    if n + 1 < m {
        a_config_is_kept_until_it_is_closed(program_id, h, n, m - 1, key);
        let c = h.chains[m - 1];
        assert(h.events[m - 1].leads(program_id, c, h.chains[m - 1 + 1]));
        if let Event::Run(i) = h.events[m - 1] {
            lemma_step_writes(program_id, c, i, key);
            assert(i.opens().len() > 0 ==> !c.in_use(i.opens()[0]));
        }
    }
}

/// The program is initialized once: after that, and until the configuration is
/// closed, initializing it again fails, whoever signs and with whatever accounts
/// and parameters. So nobody takes the program over by it.
pub proof fn the_program_is_initialized_once(
    program_id: Pubkey,
    h: History,
    n: int,
    first: Initialize,
    p: ConfigParams,
    m: int,
    second: Initialize,
    q: ConfigParams,
)
    requires
        h.possible(program_id),
        h.runs(n, Instruction::Initialize { a: first, p }),
        n < m < h.chains.len(),
        no_closure_between(h, n, m),
    ensures
        h.chains[m].step(program_id, Instruction::Initialize { a: second, p: q }) is None,
        h.chains[m].record(first.config.info.key) matches Some(Data::Config(_)),
{
    let i = Instruction::Initialize { a: first, p };
    let j = Instruction::Initialize { a: second, p: q };
    let key = first.config.info.key;
    assert(h.events[n].leads(program_id, h.chains[n], h.chains[n + 1]));
    lemma_step_writes(program_id, h.chains[n], i, key);
    a_config_is_kept_until_it_is_closed(program_id, h, n, m, key);
    assert(h.chains[m].in_use(key));
    assert(j.opens()[0] == second.config.info.key);
}

/// Parameters that the check refuses initialize nothing.
pub proof fn refused_parameters_initialize_nothing(
    program_id: Pubkey,
    c: Chain,
    a: Initialize,
    p: ConfigParams,
)
    requires
        p.refusal() is Some,
    ensures
        c.step(program_id, Instruction::Initialize { a, p }) is None,
{
}

/// The program has no configuration.
pub open spec fn without_config(c: Chain) -> bool {
    forall|key: Pubkey| !(#[trigger] c.record(key) matches Some(Data::Config(_)))
}

/// Without a configuration every instruction but `initialize` fails.
pub proof fn nothing_runs_without_a_config(program_id: Pubkey, c: Chain, i: Instruction)
    requires
        without_config(c),
        !(i is Initialize),
    ensures
        c.step(program_id, i) is None,
{
    if let Some(x) = i.config() {
        assert(!(c.record(x.info.key) matches Some(Data::Config(_))));
    }
}

/// The events after the `n`th and before the `m`th state initialize nothing.
pub open spec fn no_start_between(h: History, n: int, m: int) -> bool {
    forall|k: int|
        n < k < m ==> !(#[trigger] h.events[k] matches Event::Run(i) && i is Initialize)
}

/// The closure of the one configuration leaves none.
proof fn lemma_closure_leaves_no_config(program_id: Pubkey, c: Chain, a: CloseConfig)
    requires
        crate::chain::in_order(program_id, c),
        c.step(program_id, Instruction::CloseConfig { a }) is Some,
    ensures
        without_config(c.step(program_id, Instruction::CloseConfig { a })->0),
{
    let i = Instruction::CloseConfig { a };
    assert(c.record(a.config.info.key) is Some);
    assert forall|key: Pubkey|
        !(#[trigger] (c.step(program_id, i)->0).record(key) matches Some(Data::Config(_))) by {
        lemma_step_writes(program_id, c, i, key);
    }
}

/// Without a configuration there is none until `initialize` writes one.
proof fn lemma_no_config_from_nowhere(program_id: Pubkey, h: History, n: int, m: int)
    requires
        h.possible(program_id),
        0 <= n < m < h.chains.len(),
        without_config(h.chains[n + 1]),
        no_start_between(h, n, m),
    ensures
        without_config(h.chains[m]),
    decreases m,
{
    if n + 1 < m {
        lemma_no_config_from_nowhere(program_id, h, n, m - 1);
        let c = h.chains[m - 1];
        assert(h.events[m - 1].leads(program_id, c, h.chains[m - 1 + 1]));
        if let Event::Run(i) = h.events[m - 1] {
            nothing_runs_without_a_config(program_id, c, i);
        } else {
            assert forall|key: Pubkey|
                !(#[trigger] h.chains[m].record(key) matches Some(Data::Config(_))) by {
                assert(h.chains[m].record(key) == c.record(key));
            }
        }
    }
}

/// The closure of the configuration ends the program: after it, and until the
/// program is initialized again, every instruction but `initialize` fails for lack
/// of a configuration.
pub proof fn a_closed_program_does_nothing(
    program_id: Pubkey,
    h: History,
    n: int,
    a: CloseConfig,
    m: int,
    i: Instruction,
)
    requires
        h.possible(program_id),
        h.from_nothing(),
        h.runs(n, Instruction::CloseConfig { a }),
        n < m < h.chains.len(),
        no_start_between(h, n, m),
        !(i is Initialize),
    ensures
        without_config(h.chains[m]),
        h.chains[m].step(program_id, i) is None,
{
    let c = h.chains[n];
    let last = Instruction::CloseConfig { a };
    the_books_stay_in_order(program_id, h, n);
    assert(h.events[n].leads(program_id, c, h.chains[n + 1]));
    lemma_closure_leaves_no_config(program_id, c, a);
    assert forall|key: Pubkey|
        !(#[trigger] h.chains[n + 1].record(key) matches Some(Data::Config(_))) by {
        assert(h.chains[n + 1].record(key) == (c.step(program_id, last)->0).record(key));
    }
    lemma_no_config_from_nowhere(program_id, h, n, m);
    nothing_runs_without_a_config(program_id, h.chains[m], i);
}

/// One instruction to the token program, as a list, is carried out as it is.
proof fn lemma_apply_one(c: Chain, op: TokenOp)
    ensures
        c.apply_all(seq![op]) == c.apply(op),
{
    assert(seq![op].drop_last() =~= Seq::<TokenOp>::empty());
    assert(seq![op].last() == op);
    reveal_with_fuel(Chain::apply_all, 2);
}

/// A token account that holds tokens is not closed: while the vault or the
/// treasury holds any, the closure of its token account fails. So no tokens are
/// lost by a closure.
pub proof fn only_empty_accounts_are_closed(
    program_id: Pubkey,
    c: Chain,
    prizes: CloseVaultAta,
    fees: CloseTreasuryAta,
)
    ensures
        c.token(prizes.vault_ata.info.key) matches Some(x) && x.amount > 0 ==> c.step(
            program_id,
            Instruction::CloseVaultAta { a: prizes },
        ) is None,
        c.token(fees.treasury_ata.info.key) matches Some(x) && x.amount > 0 ==> c.step(
            program_id,
            Instruction::CloseTreasuryAta { a: fees },
        ) is None,
{
    lemma_apply_one(c, crate::grindie::vault_closure(prizes));
    lemma_apply_one(c, crate::grindie::treasury_closure(fees));
}

/// A clean shutdown returns all that the program holds: when the admin has
/// withdrawn what the vault and the treasury hold to a token account of their own,
/// and has closed both token accounts and then the configuration, that token
/// account has grown by both amounts, the admin has all lamports of the three
/// accounts, none of the three remains, and every instruction but `initialize`
/// fails.
pub proof fn a_shutdown_leaves_nothing(
    program_id: Pubkey,
    c: Chain,
    prizes: WithdrawVault,
    fees: WithdrawTreasury,
    close_prizes: CloseVaultAta,
    close_fees: CloseTreasuryAta,
    last: CloseConfig,
    chains: Seq<Chain>,
)
    requires
        crate::chain::in_order(program_id, c),
        chains.len() == 5,
        c.step(
            program_id,
            Instruction::WithdrawVault { a: prizes, amount: prizes.vault_ata.data.amount },
        ) == Some(chains[0]),
        chains[0].step(
            program_id,
            Instruction::WithdrawTreasury { a: fees, amount: fees.treasury_ata.data.amount },
        ) == Some(chains[1]),
        chains[1].step(program_id, Instruction::CloseVaultAta { a: close_prizes }) == Some(
            chains[2],
        ),
        chains[2].step(program_id, Instruction::CloseTreasuryAta { a: close_fees }) == Some(
            chains[3],
        ),
        chains[3].step(program_id, Instruction::CloseConfig { a: last }) == Some(chains[4]),
        close_prizes.vault_ata.info.key == prizes.vault_ata.info.key,
        close_fees.treasury_ata.info.key == fees.treasury_ata.info.key,
        fees.dest_ata.info.key == prizes.dest_ata.info.key,
        prizes.dest_ata.info.key != prizes.vault_ata.info.key,
        prizes.dest_ata.info.key != fees.treasury_ata.info.key,
        close_prizes.admin.key == last.admin.key,
        close_fees.admin.key == last.admin.key,
    ensures
        ({
            let end = chains[4];
            let dest = prizes.dest_ata.info.key;
            let vault = prizes.vault_ata.info.key;
            let treasury = fees.treasury_ata.info.key;
            let config = last.config.info.key;
            let admin = last.admin.key;
            &&& c.token(dest) matches Some(x) && end.token(dest) matches Some(y) && y.amount
                == x.amount + (c.token(vault)->0).amount + (c.token(treasury)->0).amount
            &&& end.lamports[admin] == c.lamports[admin] + c.lamports[vault] + c.lamports[treasury]
                + c.lamports[config]
            &&& !end.in_use(vault)
            &&& !end.in_use(treasury)
            &&& !end.in_use(config)
            &&& without_config(end)
            &&& forall|i: Instruction|
                !(i is Initialize) ==> #[trigger] end.step(program_id, i) is None
        }),
{
    let i0 = Instruction::WithdrawVault { a: prizes, amount: prizes.vault_ata.data.amount };
    let i1 = Instruction::WithdrawTreasury { a: fees, amount: fees.treasury_ata.data.amount };
    let i2 = Instruction::CloseVaultAta { a: close_prizes };
    let i3 = Instruction::CloseTreasuryAta { a: close_fees };
    lemma_apply_one(c, i0.ops()[0]);
    lemma_apply_one(chains[0], i1.ops()[0]);
    lemma_apply_one(chains[1], i2.ops()[0]);
    lemma_apply_one(chains[2], i3.ops()[0]);
    assert(Event::Run(i0).leads(program_id, c, chains[0]));
    assert(Event::Run(i1).leads(program_id, chains[0], chains[1]));
    assert(Event::Run(i2).leads(program_id, chains[1], chains[2]));
    assert(Event::Run(i3).leads(program_id, chains[2], chains[3]));
    lemma_event_keeps_order(program_id, c, Event::Run(i0), chains[0]);
    lemma_event_keeps_order(program_id, chains[0], Event::Run(i1), chains[1]);
    lemma_event_keeps_order(program_id, chains[1], Event::Run(i2), chains[2]);
    lemma_event_keeps_order(program_id, chains[2], Event::Run(i3), chains[3]);
    lemma_closure_leaves_no_config(program_id, chains[3], last);
    let end = chains[4];
    assert forall|i: Instruction| !(i is Initialize) implies #[trigger] end.step(
        program_id,
        i,
    ) is None by {
        nothing_runs_without_a_config(program_id, end, i);
    }
}

} // verus!
