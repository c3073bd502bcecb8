//! Laws of the configuration.
use crate::accounts::Context;
use crate::contexts::{AdminOnly, Initialize, InitializeBumps};
use crate::pubkey::Pubkey;
use crate::state::{Config, ConfigParams};
use vstd::prelude::*;

verus! {

/// Parameters that were written are read back, and writing them changes nothing
/// else: who administers, which mint and backend signer are used, the content
/// root, the pause and the bumps stay.
pub proof fn params_are_read_back(c: Config, p: ConfigParams)
    ensures
        c.with_params(p).params() == p,
        c.with_params(p).admin == c.admin,
        c.with_params(p).mint == c.mint,
        c.with_params(p).outcome_authority == c.outcome_authority,
        c.with_params(p).content_root == c.content_root,
        c.with_params(p).paused == c.paused,
        c.with_params(p).bump == c.bump,
        c.with_params(p).vault_bump == c.vault_bump,
        c.with_params(p).treasury_bump == c.treasury_bump,
{
}

/// Of two updates the last one counts.
pub proof fn last_params_count(c: Config, p: ConfigParams, q: ConfigParams)
    ensures
        c.with_params(p).with_params(q) == c.with_params(q),
{
}

/// A configuration and its own parameters agree.
pub proof fn own_params_change_nothing(c: Config)
    ensures
        c.with_params(c.params()) == c,
{
}

/// The first configuration is valid.
pub proof fn initialize_writes_a_valid_config(
    ctx: Context<Initialize, InitializeBumps>,
    p: ConfigParams,
)
    requires
        p.refusal() is None,
    ensures
        crate::grindie::initialized(ctx, p).accounts.config.data.wf(),
        crate::grindie::initialized(ctx, p).accounts.config.data.params() == p,
{
}

/// Every instruction of the admin keeps the configuration valid: an update by
/// accepted parameters makes it valid, and the others do not touch what validity
/// speaks of.
pub proof fn admin_instructions_keep_the_config_valid(
    c: Config,
    p: ConfigParams,
    key: Pubkey,
    root: [u8; 32],
    paused: bool,
)
    ensures
        p.refusal() is None ==> c.with_params(p).wf(),
        c.wf() ==> (Config { outcome_authority: key, ..c }).wf(),
        c.wf() ==> (Config { admin: key, ..c }).wf(),
        c.wf() ==> (Config { mint: key, ..c }).wf(),
        c.wf() ==> (Config { content_root: root, ..c }).wf(),
        c.wf() ==> (Config { paused, ..c }).wf(),
{
}

/// The admin can change every field but the bumps: from any configuration the
/// instructions of the admin, one after another, lead to any other one whose
/// parameters are accepted and whose bumps are the same.
pub proof fn every_field_can_be_changed(from: Config, to: Config)
    requires
        to.params().refusal() is None,
        to.bump == from.bump,
        to.vault_bump == from.vault_bump,
        to.treasury_bump == from.treasury_bump,
    ensures
        ({
            let a = from.with_params(to.params());
            let b = Config { outcome_authority: to.outcome_authority, ..a };
            let c = Config { mint: to.mint, ..b };
            let d = Config { content_root: to.content_root, ..c };
            let e = Config { paused: to.paused, ..d };
            (Config { admin: to.admin, ..e }) == to
        }),
{
}

/// After the admin role is handed over, the old admin is refused, and the new
/// one is accepted under the conditions that the old one was.
pub proof fn only_the_new_admin_remains(
    ctx: Context<AdminOnly, ()>,
    new_admin: Pubkey,
)
    requires
        ctx.accounts.refused(ctx.program_id) is None,
        new_admin != ctx.accounts.admin.key,
    ensures
        ({
            let after = crate::grindie::with_config(
                ctx,
                Config { admin: new_admin, ..ctx.accounts.config.data },
            ).accounts;
            let successor = crate::accounts::AccountInfo { key: new_admin, ..after.admin };
            &&& after.refused(ctx.program_id) == Some(crate::error::AccountError::HasOne)
            &&& (AdminOnly { admin: successor, ..after }).refused(ctx.program_id) is None
        }),
{
}

} // verus!
