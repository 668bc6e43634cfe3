//! The minting authority of a configuration: an address derived from the
//! configuration's own address, for which no private key exists. The
//! controller signs for it with the seeds it was derived from.

use vstd::prelude::*;
use vstd::slice::slice_to_vec;
use crate::address::{lemma_address_by_bytes, Address};
use crate::administration::InitializeConfig;
use crate::issuance::AuthoritySeeds;

verus! {

/// The tag that opens the seeds of every minting authority: the bytes of
/// `mint_authority`.
pub const MINT_AUTHORITY_TAG: [u8; 14] = [
    109, 105, 110, 116, 95, 97, 117, 116, 104, 111, 114, 105, 116, 121,
];

/// The program-derived address of `seeds` under `program_id`, with the bump
/// seed that completes it, where one exists.
pub uninterp spec fn program_address(seeds: Seq<Seq<u8>>, program_id: Seq<u8>) -> Option<
    (Seq<u8>, u8),
>;

/// The seeds from which the minting authority of the configuration at
/// `config` is derived.
pub open spec fn authority_seeds(config: Address) -> Seq<Seq<u8>> {
    seq![MINT_AUTHORITY_TAG@, config@]
}

/// The seeds that sign for a minting authority: those it was derived from,
/// and its bump seed.
pub open spec fn signer_seeds(signer: AuthoritySeeds) -> Seq<Seq<u8>> {
    seq![MINT_AUTHORITY_TAG@, signer.config@, seq![signer.bump]]
}

/// Calls `Pubkey::try_find_program_address` of `solana_program`, as
/// `anchor_lang` hands it on. Nothing is proved of it: the contract only gives
/// its answer a name, on the grounds that the answer is computed from the
/// seeds and the program's address alone. The call searches the bump seeds
/// from 255 downwards for an address off the curve and answers `None` where it
/// finds none or the seeds are too many or too long.
#[verifier::external_body]
fn find_program_address(seeds: &Vec<&[u8]>, program_id: &[u8; 32]) -> (found: Option<
    ([u8; 32], u8),
>)
    ensures
        match found {
            Some((address, bump)) => program_address(seeds.deep_view(), program_id@) == Some(
                (address@, bump),
            ),
            None => program_address(seeds.deep_view(), program_id@) is None,
        },
{
    let program = anchor_lang::prelude::Pubkey::new_from_array(*program_id);
    match anchor_lang::prelude::Pubkey::try_find_program_address(seeds.as_slice(), &program) {
        Some((address, bump)) => Some((address.to_bytes(), bump)),
        None => None,
    }
}

/// The minting authority of the configuration at `config` under the program
/// at `program_id`: its address and its bump seed. There is none in the rare
/// case that no bump seed gives an address.
pub fn mint_authority_handle(program_id: &Address, config: &Address) -> (handle: Option<
    (Address, u8),
>)
    ensures
        match handle {
            Some((authority, bump)) => program_address(authority_seeds(*config), program_id@)
                == Some((authority@, bump)),
            None => program_address(authority_seeds(*config), program_id@) is None,
        },
{
    let tag: [u8; 14] = MINT_AUTHORITY_TAG;
    let mut seeds: Vec<&[u8]> = Vec::new();
    seeds.push(tag.as_slice());
    seeds.push(config.bytes.as_slice());
    assert(seeds.deep_view() =~~= authority_seeds(*config));
    match find_program_address(&seeds, &program_id.bytes) {
        Some((address, bump)) => Some((Address { bytes: address }, bump)),
        None => None,
    }
}

/// A configuration has one minting authority under a program: whatever two
/// derivations answer, they answer the same address and the same bump seed.
pub proof fn lemma_one_authority(
    program_id: Address,
    config: Address,
    first: (Address, u8),
    second: (Address, u8),
)
    ensures
        program_address(authority_seeds(config), program_id@) == Some((first.0@, first.1))
            && program_address(authority_seeds(config), program_id@) == Some(
            (second.0@, second.1),
        ) ==> first == second,
{
    lemma_address_by_bytes(first.0, second.0);
}

impl AuthoritySeeds {
    /// The seeds as the ledger takes them: the tag, the address of the
    /// configuration, and the bump seed.
    pub fn seeds(&self) -> (seeds: Vec<Vec<u8>>)
        ensures
            seeds.deep_view() == signer_seeds(*self),
    {
        let mut seeds: Vec<Vec<u8>> = Vec::new();
        seeds.push(slice_to_vec(MINT_AUTHORITY_TAG.as_slice()));
        seeds.push(slice_to_vec(self.config.bytes.as_slice()));
        let mut last: Vec<u8> = Vec::new();
        last.push(self.bump);
        seeds.push(last);
        assert(seeds.deep_view() =~~= signer_seeds(*self));
        seeds
    }
}

impl InitializeConfig {
    /// The participants in the creation of a configuration at `config`, with
    /// the bump seed of the minting authority that is derived for it under
    /// the program at `program_id`. There are none where no authority can be
    /// derived.
    pub fn derive(program_id: &Address, admin: Address, config: Address, lumi_mint: Address) -> (ctx:
        Option<InitializeConfig>)
        ensures
            match program_address(authority_seeds(config), program_id@) {
                Some((_, bump)) => ctx == Some(
                    InitializeConfig { admin, config, lumi_mint, mint_authority_bump: bump },
                ),
                None => ctx is None,
            },
    {
        match mint_authority_handle(program_id, &config) {
            Some((_, bump)) => Some(
                InitializeConfig { admin, config, lumi_mint, mint_authority_bump: bump },
            ),
            None => None,
        }
    }
}

} // verus!
