//! Laws of where accounts lie and what the program signs with, in terms of the bytes
//! of the seeds.
use crate::ops::Authority;
use crate::pda::{associated_token_address, is_mpl_core, lemma_first_created, Pda};
use crate::pubkey::Pubkey;
use vstd::prelude::*;

verus! {

/// The seed of one word.
pub open spec fn word(tag: Seq<char>) -> Seq<Seq<u8>> {
    seq![vstd::utf8::encode_utf8(tag)]
}

/// The seeds of an account of one session: a word, the key of the player, and the
/// session id in eight bytes, the lowest first.
pub open spec fn own(tag: Seq<char>, player: Pubkey, session_id: u64) -> Seq<Seq<u8>> {
    seq![
        vstd::utf8::encode_utf8(tag),
        player.bytes@,
        vstd::bytes::spec_u64_to_le_bytes(session_id),
    ]
}

/// The seeds followed by this bump create the address `key`.
pub open spec fn creates(
    seeds: Seq<Seq<u8>>,
    bump: u8,
    program: Seq<u8>,
    key: Pubkey,
) -> bool {
    crate::pda::created_address(seeds.push(seq![bump]), program) == Some(key.bytes)
}

/// The seeds create `key` with this bump, and nothing with a larger one.
pub open spec fn canonical(
    seeds: Seq<Seq<u8>>,
    bump: u8,
    program: Seq<u8>,
    key: Pubkey,
) -> bool {
    &&& 1 <= bump
    &&& creates(seeds, bump, program, key)
    &&& forall|b: u8|
        bump < b ==> crate::pda::created_address(#[trigger] seeds.push(seq![b]), program) is None
}

/// Some bump but zero creates an address from the seeds.
pub open spec fn derivable(seeds: Seq<Seq<u8>>, program: Seq<u8>) -> bool {
    exists|b: u8|
        1 <= b && crate::pda::created_address(#[trigger] seeds.push(seq![b]), program) is Some
}

/// `key` is the canonical address of the seeds.
pub open spec fn lies_at(seeds: Seq<Seq<u8>>, program: Seq<u8>, key: Pubkey) -> bool {
    exists|b: u8| #[trigger] canonical(seeds, b, program, key)
}

/// What is found is the canonical address, with its bump.
pub proof fn the_canonical_address_is_found(seeds: Seq<Seq<u8>>, program: Seq<u8>)
    ensures
        match crate::pda::found_address(seeds, program) {
            Some((bytes, bump)) => {
                &&& derivable(seeds, program)
                &&& canonical(seeds, bump, program, Pubkey { bytes })
                &&& forall|key: Pubkey|
                    #[trigger] lies_at(seeds, program, key) <==> key.bytes == bytes
            },
            None => {
                &&& !derivable(seeds, program)
                &&& forall|key: Pubkey| !#[trigger] lies_at(seeds, program, key)
            },
        },
{
    lemma_first_created(seeds, program, 255);
    match crate::pda::found_address(seeds, program) {
        Some((bytes, bump)) => {
            assert(canonical(seeds, bump, program, Pubkey { bytes }));
            assert forall|key: Pubkey|
                #[trigger] lies_at(seeds, program, key) implies key.bytes == bytes by {
                let b = choose|b: u8| #[trigger] canonical(seeds, b, program, key);
                let one = seeds.push(seq![b]);
                let other = seeds.push(seq![bump]);
                assert(b == bump);
            }
            assert forall|key: Pubkey|
                key.bytes == bytes implies #[trigger] lies_at(seeds, program, key) by {
                assert(canonical(seeds, bump, program, key));
            }
        },
        None => {
            assert forall|key: Pubkey| !#[trigger] lies_at(seeds, program, key) by {
                if lies_at(seeds, program, key) {
                    let b = choose|b: u8| #[trigger] canonical(seeds, b, program, key);
                    let one = seeds.push(seq![b]);
                }
            }
        },
    }
}

/// The seeds of each account are its word and, for an account of one session, the
/// player and the session id.
pub proof fn the_seeds_are_these(pda: Pda, r: Vec<Vec<u8>>)
    requires
        call_ensures(Pda::seed_bytes, (&pda,), r),
    ensures
        r.deep_view() == (match pda {
            Pda::Config => word("config"@),
            Pda::Vault => word("vault"@),
            Pda::Treasury => word("treasury"@),
            Pda::Session { player, session_id } => own("session"@, player, session_id),
            Pda::Escrow { player, session_id } => own("escrow"@, player, session_id),
            Pda::NftReceipt { player, session_id } => own("nft"@, player, session_id),
        }),
{
}

/// The program signs with the seeds, followed by a seed of one byte, the bump.
pub proof fn signatures_end_with_the_bump(
    pda: Pda,
    bump: u8,
    r: Vec<Vec<u8>>,
    s: Vec<Vec<u8>>,
)
    requires
        call_ensures(Pda::seed_bytes, (&pda,), r),
        call_ensures(Pda::signer_seed_bytes, (&pda, bump), s),
    ensures
        s.deep_view().len() == r.deep_view().len() + 1,
        s.deep_view().drop_last() == r.deep_view(),
        s.deep_view().last() == seq![bump],
{
}

/// An address that is found is the canonical one of the seeds, and one is found
/// whenever a bump but zero creates any.
pub proof fn accounts_lie_at_their_canonical_address(
    pda: Pda,
    program_id: Pubkey,
    seeds: Vec<Vec<u8>>,
    r: Option<(Pubkey, u8)>,
)
    requires
        call_ensures(Pda::seed_bytes, (&pda,), seeds),
        call_ensures(Pda::find, (&pda, &program_id), r),
    ensures
        match r {
            Some((key, bump)) => canonical(seeds.deep_view(), bump, program_id.bytes@, key),
            None => !derivable(seeds.deep_view(), program_id.bytes@),
        },
{
    the_canonical_address_is_found(pda.seeds(), program_id.bytes@);
}

/// An address that is created with a bump is what the seeds and that bump create.
pub proof fn a_bump_creates_its_address(
    pda: Pda,
    bump: u8,
    program_id: Pubkey,
    seeds: Vec<Vec<u8>>,
    r: Option<Pubkey>,
)
    requires
        call_ensures(Pda::seed_bytes, (&pda,), seeds),
        call_ensures(Pda::create, (&pda, bump, &program_id), r),
    ensures
        forall|key: Pubkey|
            r == Some(key) <==> #[trigger] creates(
                seeds.deep_view(),
                bump,
                program_id.bytes@,
                key,
            ),
        r is None <==> crate::pda::created_address(
            seeds.deep_view().push(seq![bump]),
            program_id.bytes@,
        ) is None,
{
}

/// An associated token account lies at the canonical address of the wallet, the
/// token program and the mint, under the associated token program.
pub proof fn associated_accounts_lie_at_their_address(
    wallet: Pubkey,
    mint: Pubkey,
    token_program: Pubkey,
    r: Option<Pubkey>,
)
    requires
        call_ensures(associated_token_address, (&wallet, &mint, &token_program), r),
    ensures
        ({
            let seeds = seq![wallet.bytes@, token_program.bytes@, mint.bytes@];
            let program = seq![
                140u8, 151, 37, 143, 78, 36, 137, 241, 187, 61, 16, 41, 20, 142, 13, 131, 11, 90,
                19, 153, 218, 255, 16, 132, 4, 142, 123, 216, 219, 233, 248, 89,
            ];
            match r {
                Some(key) => lies_at(seeds, program, key),
                None => !derivable(seeds, program),
            }
        }),
{
    let program = seq![
        140u8, 151, 37, 143, 78, 36, 137, 241, 187, 61, 16, 41, 20, 142, 13, 131, 11, 90, 19, 153,
        218, 255, 16, 132, 4, 142, 123, 216, 219, 233, 248, 89,
    ];
    assert(crate::pda::associated_token_program_bytes() =~= program);
    the_canonical_address_is_found(
        seq![wallet.bytes@, token_program.bytes@, mint.bytes@],
        program,
    );
}

/// The asset program is the one at this address, and no other.
pub proof fn the_asset_program_is_this_one(key: Pubkey, r: bool)
    requires
        call_ensures(is_mpl_core, (&key,), r),
    ensures
        r <==> key.bytes@ == seq![
            175u8, 84, 171, 16, 189, 151, 165, 66, 160, 158, 247, 179, 152, 137, 221, 12, 211, 148,
            164, 204, 233, 223, 166, 205, 201, 126, 190, 45, 35, 91, 167, 72,
        ],
{
    assert(crate::pda::mpl_core_program_bytes() =~= seq![
        175u8, 84, 171, 16, 189, 151, 165, 66, 160, 158, 247, 179, 152, 137, 221, 12, 211, 148,
        164, 204, 233, 223, 166, 205, 201, 126, 190, 45, 35, 91, 167, 72,
    ]);
}

/// Keys are equal exactly when all of their bytes are.
pub proof fn keys_are_their_bytes(p: Pubkey, q: Pubkey, r: bool)
    requires
        call_ensures(<Pubkey as PartialEq>::eq, (&p, &q), r),
    ensures
        r <==> p.bytes@ == q.bytes@,
{
    if p.bytes@ == q.bytes@ {
        assert forall|i: int| 0 <= i < 32 implies p.bytes[i] == q.bytes[i] by {
            assert(p.bytes@[i] == q.bytes@[i]);
        }
        assert(p.bytes =~= q.bytes);
    }
}

/// A wallet signs for itself and needs no seeds; the program signs for an account
/// with its seeds and the recorded bump.
pub proof fn authorities_sign_with_these_seeds(
    a: Authority,
    key: Pubkey,
    seeds: Vec<Vec<u8>>,
    own_seeds: Vec<Vec<u8>>,
)
    requires
        call_ensures(Authority::key, (&a,), key),
        call_ensures(Authority::signer_seeds, (&a,), seeds),
        a matches Authority::Program { pda, bump, .. } ==> call_ensures(
            Pda::signer_seed_bytes,
            (&pda, bump),
            own_seeds,
        ),
    ensures
        match a {
            Authority::Wallet { key: k } => key == k && seeds.deep_view().len() == 0,
            Authority::Program { key: k, .. } => key == k && seeds.deep_view()
                == own_seeds.deep_view(),
        },
{
}

} // verus!
