# grindie

The money core of a play-to-risk arena on Solana, with its rules proved in
Verus. A player pays a fee and stakes tokens in escrow; a backend attests how the
run ended; the session is settled under configured bounds; an ending can be
minted as a soulbound asset.

- `src/` is the verified library. `contexts` says which accounts an instruction
  accepts, `grindie` what it does with them, `money` which amounts move, `params`
  which configurations are valid, `pda` where accounts live, `chain` how accounts
  change over time, and `laws` what holds of all of it.
- `tests/` runs the library, with real address derivation.
- `app/` is the on-chain program: it loads accounts, hands them to the library,
  and carries out the token and asset instructions that come back.

What is taken on trust is in `src/pda.rs`: two address derivations and two
constant program addresses. `src/chain.rs` is a model to state laws in: it says
what the runtime and the token program do with accounts, and no code runs it.
