//! Program-derived addresses: the seeds of every account that the program
//! itself controls, and the addresses that those seeds derive.
use crate::pubkey::Pubkey;
use vstd::bytes::u64_to_le_bytes;
use vstd::prelude::*;
use vstd::slice::slice_to_vec;

verus! {

/// What `Pubkey::create_program_address` returns for these seeds (a bump among
/// them) under this program: the derived address, or `None` where it refuses
/// the seeds.
pub uninterp spec fn created_address(seeds: Seq<Seq<u8>>, program_id: Seq<u8>) -> Option<[u8; 32]>;

/// The address that `seeds`, followed by a bump, create with the largest bump from
/// `top` down to one that creates any, and that bump.
pub open spec fn first_created(seeds: Seq<Seq<u8>>, program_id: Seq<u8>, top: nat) -> Option<
    ([u8; 32], u8),
>
    decreases top,
{
    if top == 0 {
        None
    } else {
        match created_address(seeds.push(seq![top as u8]), program_id) {
            Some(bytes) => Some((bytes, top as u8)),
            None => first_created(seeds, program_id, (top - 1) as nat),
        }
    }
}

/// The canonical address of `seeds` under this program and its bump, the largest
/// that creates an address, or `None` if no bump but zero does.
pub open spec fn found_address(seeds: Seq<Seq<u8>>, program_id: Seq<u8>) -> Option<
    ([u8; 32], u8),
> {
    first_created(seeds, program_id, 255)
}

/// What is found with some bump is what that bump creates, and no larger bump up
/// to `top` creates any address.
pub proof fn lemma_first_created(seeds: Seq<Seq<u8>>, program_id: Seq<u8>, top: nat)
    requires
        top <= 255,
    ensures
        match first_created(seeds, program_id, top) {
            Some((bytes, bump)) => {
                &&& 1 <= bump <= top
                &&& created_address(seeds.push(seq![bump]), program_id) == Some(bytes)
                &&& forall|b: u8|
                    bump < b <= top ==> created_address(
                        #[trigger] seeds.push(seq![b]),
                        program_id,
                    ) is None
            },
            None => forall|b: u8|
                1 <= b <= top ==> created_address(
                    #[trigger] seeds.push(seq![b]),
                    program_id,
                ) is None,
        },
    decreases top,
{
    if top > 0 {
        lemma_first_created(seeds, program_id, (top - 1) as nat);
    }
}

/// The address and bump found for `seeds`, with the address as a key.
pub open spec fn found_pda(seeds: Seq<Seq<u8>>, program_id: Pubkey) -> Option<(Pubkey, u8)> {
    match found_address(seeds, program_id.bytes@) {
        Some((bytes, bump)) => Some((Pubkey { bytes }, bump)),
        None => None,
    }
}

/// The address that `seeds`, followed by the seed of one byte `bump`, create.
pub open spec fn created_pda(seeds: Seq<Seq<u8>>, bump: u8, program_id: Pubkey) -> Option<Pubkey> {
    match created_address(seeds.push(seq![bump]), program_id.bytes@) {
        Some(bytes) => Some(Pubkey { bytes }),
        None => None,
    }
}

/// Calls `Pubkey::try_find_program_address` of `anchor_lang`. It tries the bumps
/// from 255 down to one, and returns the first address that
/// `Pubkey::create_program_address` makes of the seeds followed by the bump.
#[verifier::external_body]
fn try_find_program_address(seeds: &Vec<Vec<u8>>, program_id: &Pubkey) -> (r: Option<(Pubkey, u8)>)
    ensures
        r == (match found_address(seeds.deep_view(), program_id.bytes@) {
            Some((bytes, bump)) => Some((Pubkey { bytes }, bump)),
            None => None,
        }),
{
    let parts: Vec<&[u8]> = seeds.iter().map(|s| s.as_slice()).collect();
    let program = anchor_lang::prelude::Pubkey::new_from_array(program_id.bytes);
    match anchor_lang::prelude::Pubkey::try_find_program_address(&parts, &program) {
        Some((key, bump)) => Some((Pubkey { bytes: key.to_bytes() }, bump)),
        None => None,
    }
}

/// Calls `Pubkey::create_program_address` of `anchor_lang`. Its result is a
/// function of the seeds and the program alone; any of its errors is `None`.
#[verifier::external_body]
fn create_program_address(seeds: &Vec<Vec<u8>>, program_id: &Pubkey) -> (r: Option<Pubkey>)
    ensures
        r == (match created_address(seeds.deep_view(), program_id.bytes@) {
            Some(bytes) => Some(Pubkey { bytes }),
            None => None,
        }),
{
    let parts: Vec<&[u8]> = seeds.iter().map(|s| s.as_slice()).collect();
    let program = anchor_lang::prelude::Pubkey::new_from_array(program_id.bytes);
    match anchor_lang::prelude::Pubkey::create_program_address(&parts, &program) {
        Ok(key) => Some(Pubkey { bytes: key.to_bytes() }),
        Err(_) => None,
    }
}

/// The address of the associated token program,
/// `ATokenGPvbdGVxr1b2hvZbsiqW5xWH25efTNsLJA8knL`.
pub open spec fn associated_token_program_bytes() -> Seq<u8> {
    seq![
        140u8, 151, 37, 143, 78, 36, 137, 241, 187, 61, 16, 41, 20, 142, 13, 131, 11, 90, 19, 153,
        218, 255, 16, 132, 4, 142, 123, 216, 219, 233, 248, 89,
    ]
}

/// The address of the Metaplex Core program,
/// `CoREENxT6tW1HoK8ypY1SxRMZTcVPm7R94rH4PZNhX7d`.
pub open spec fn mpl_core_program_bytes() -> Seq<u8> {
    seq![
        175u8, 84, 171, 16, 189, 151, 165, 66, 160, 158, 247, 179, 152, 137, 221, 12, 211, 148,
        164, 204, 233, 223, 166, 205, 201, 126, 190, 45, 35, 91, 167, 72,
    ]
}

/// Reads the constant `ID` of `anchor_spl::associated_token`: the address of
/// the associated token program.
#[verifier::external_body]
fn associated_token_program_id() -> (r: Pubkey)
    ensures
        r.bytes@ == associated_token_program_bytes(),
{
    Pubkey { bytes: anchor_spl::associated_token::ID.to_bytes() }
}

/// Reads the constant `ID` of `mpl_core`: the address of the Metaplex Core
/// program.
#[verifier::external_body]
fn mpl_core_program_id() -> (r: Pubkey)
    ensures
        r.bytes@ == mpl_core_program_bytes(),
{
    Pubkey { bytes: mpl_core::ID.to_bytes() }
}

/// Whether `key` is the address of the Metaplex Core program.
pub fn is_mpl_core(key: &Pubkey) -> (r: bool)
    ensures
        r == (key.bytes@ == mpl_core_program_bytes()),
{
    let id: Pubkey = mpl_core_program_id();
    proof {
        if key.bytes@ == id.bytes@ {
            assert forall|i: int| 0 <= i < 32 implies key.bytes[i] == id.bytes[i] by {
                assert(key.bytes@[i] == id.bytes@[i]);
            }
            assert(key.bytes =~= id.bytes);
        }
    }
    *key == id
}

/// An account that the program controls, named by what its seeds say.
#[derive(Clone, Copy, Debug, PartialEq, Eq)]
pub enum Pda {
    /// The one configuration account.
    Config,
    /// The authority over the prize pool.
    Vault,
    /// The authority over the collected fees.
    Treasury,
    /// The record of one session of one player.
    Session { player: Pubkey, session_id: u64 },
    /// The authority over the stake of one session.
    Escrow { player: Pubkey, session_id: u64 },
    /// The receipt of the ending asset of one session.
    NftReceipt { player: Pubkey, session_id: u64 },
}

impl Pda {
    /// The first seed: a word that says what kind of account this is.
    pub open spec fn tag(self) -> Seq<char> {
        match self {
            Pda::Config => "config"@,
            Pda::Vault => "vault"@,
            Pda::Treasury => "treasury"@,
            Pda::Session { .. } => "session"@,
            Pda::Escrow { .. } => "escrow"@,
            Pda::NftReceipt { .. } => "nft"@,
        }
    }

    /// The seeds, without the bump: the tag, then the player's key and the
    /// session id in little-endian order for an account of one session.
    pub open spec fn seeds(self) -> Seq<Seq<u8>> {
        let tag = vstd::utf8::encode_utf8(self.tag());
        match self {
            Pda::Config | Pda::Vault | Pda::Treasury => seq![tag],
            Pda::Session { player, session_id }
            | Pda::Escrow { player, session_id }
            | Pda::NftReceipt { player, session_id } => seq![
                tag,
                player.bytes@,
                vstd::bytes::spec_u64_to_le_bytes(session_id),
            ],
        }
    }

    /// The seeds followed by the bump: what the program signs with.
    pub open spec fn signer_seeds(self, bump: u8) -> Seq<Seq<u8>> {
        self.seeds().push(seq![bump])
    }

    /// The canonical address and bump of this account: the bump is the largest
    /// one that creates an address.
    pub open spec fn found(self, program_id: Pubkey) -> Option<(Pubkey, u8)> {
        found_pda(self.seeds(), program_id)
    }

    /// The address of this account with a given bump.
    pub open spec fn created(self, bump: u8, program_id: Pubkey) -> Option<Pubkey> {
        created_pda(self.seeds(), bump, program_id)
    }

    /// The seeds as byte strings.
    pub fn seed_bytes(&self) -> (r: Vec<Vec<u8>>)
        ensures
            r.deep_view() == self.seeds(),
    {
        let mut r: Vec<Vec<u8>> = Vec::new();
        let tag: &str = match self {
            Pda::Config => "config",
            Pda::Vault => "vault",
            Pda::Treasury => "treasury",
            Pda::Session { .. } => "session",
            Pda::Escrow { .. } => "escrow",
            Pda::NftReceipt { .. } => "nft",
        };
        r.push(slice_to_vec(tag.as_bytes()));
        assert(r@[0].deep_view() =~= vstd::utf8::encode_utf8(self.tag()));
        match self {
            Pda::Config | Pda::Vault | Pda::Treasury => {},
            Pda::Session { player, session_id }
            | Pda::Escrow { player, session_id }
            | Pda::NftReceipt { player, session_id } => {
                r.push(slice_to_vec(player.bytes.as_slice()));
                r.push(u64_to_le_bytes(*session_id));
                assert(r@[1].deep_view() =~= player.bytes@);
                assert(r@[2].deep_view() =~= vstd::bytes::spec_u64_to_le_bytes(*session_id));
            },
        }
        assert(r.deep_view() =~= self.seeds());
        r
    }

    /// The seeds followed by the bump, as byte strings.
    pub fn signer_seed_bytes(&self, bump: u8) -> (r: Vec<Vec<u8>>)
        ensures
            r.deep_view() == self.signer_seeds(bump),
    {
        let mut r: Vec<Vec<u8>> = self.seed_bytes();
        let ghost before = r.deep_view();
        r.push(vec![bump]);
        assert(r@.last().deep_view() =~= seq![bump]);
        assert(r.deep_view() =~= before.push(seq![bump]));
        r
    }

    /// Derives the canonical address of this account, and its bump.
    pub fn find(&self, program_id: &Pubkey) -> (r: Option<(Pubkey, u8)>)
        ensures
            r == self.found(*program_id),
            r matches Some((key, bump)) ==> self.created(bump, *program_id) == Some(key),
    {
        let seeds: Vec<Vec<u8>> = self.seed_bytes();
        proof {
            lemma_first_created(self.seeds(), program_id.bytes@, 255);
        }
        try_find_program_address(&seeds, program_id)
    }

    /// Derives the address of this account with a recorded bump.
    pub fn create(&self, bump: u8, program_id: &Pubkey) -> (r: Option<Pubkey>)
        ensures
            r == self.created(bump, *program_id),
    {
        let seeds: Vec<Vec<u8>> = self.signer_seed_bytes(bump);
        create_program_address(&seeds, program_id)
    }
}

/// The seeds under which the associated token program places the token account
/// of a wallet: the wallet, the token program and the mint.
pub open spec fn associated_token_seeds(
    wallet: Pubkey,
    mint: Pubkey,
    token_program: Pubkey,
) -> Seq<Seq<u8>> {
    seq![wallet.bytes@, token_program.bytes@, mint.bytes@]
}

/// The associated token account of `wallet` for `mint`: the address that its
/// seeds derive under the associated token program.
pub open spec fn associated_token_pda(
    wallet: Pubkey,
    mint: Pubkey,
    token_program: Pubkey,
) -> Option<Pubkey> {
    match found_address(
        associated_token_seeds(wallet, mint, token_program),
        associated_token_program_bytes(),
    ) {
        Some((bytes, _)) => Some(Pubkey { bytes }),
        None => None,
    }
}

/// Derives the address of the associated token account of `wallet` for `mint`.
pub fn associated_token_address(wallet: &Pubkey, mint: &Pubkey, token_program: &Pubkey) -> (r:
    Option<Pubkey>)
    ensures
        r == associated_token_pda(*wallet, *mint, *token_program),
{
    let mut seeds: Vec<Vec<u8>> = Vec::new();
    seeds.push(slice_to_vec(wallet.bytes.as_slice()));
    seeds.push(slice_to_vec(token_program.bytes.as_slice()));
    seeds.push(slice_to_vec(mint.bytes.as_slice()));
    assert(seeds@[0].deep_view() =~= wallet.bytes@);
    assert(seeds@[1].deep_view() =~= token_program.bytes@);
    assert(seeds@[2].deep_view() =~= mint.bytes@);
    assert(seeds.deep_view() =~= associated_token_seeds(*wallet, *mint, *token_program));
    match try_find_program_address(&seeds, &associated_token_program_id()) {
        Some((key, _)) => Some(key),
        None => None,
    }
}

} // verus!
