//! Derived addresses: the user record of a (collection, user) pair and the
//! mint-authority marker of a collection.

use vstd::prelude::*;
use vstd::string::*;
use solana_program::pubkey::Pubkey;
use crate::address::{address_of, append_bytes, lemma_address_of, Address};
use crate::state::{MINT_AUTHORITY, USER_DATA};

verus! {

/// Address of this program.
pub const PROGRAM_ID: [u8; 32] = [
    128, 172, 95, 185, 119, 215, 127, 58, 48, 170, 131, 89, 29, 219, 160, 91,
    84, 255, 212, 80, 85, 109, 142, 172, 159, 253, 2, 138, 34, 249, 205, 27,
];

/// What the ledger's address derivation gives for a list of seeds under a
/// program: the bytes of the derived address and the bump seed that was
/// appended to reach it, or `None` where it gives no address.
pub uninterp spec fn program_address(seeds: Seq<Seq<u8>>, program_id: Seq<u8>) -> Option<
    (Seq<u8>, u8),
>;

/// `Pubkey::try_find_program_address` of solana_program. The derivation
/// depends on the seeds and the program alone, so its outcome is the value
/// that `program_address` names; nothing else is claimed of it.
#[verifier::external_body]
fn try_find_program_address(seeds: &Vec<Vec<u8>>, program_id: &Address) -> (found: Option<
    (Address, u8),
>)
    ensures
        match found {
            Some((address, bump)) => program_address(seeds.deep_view(), program_id@) == Some(
                (address@, bump),
            ),
            None => program_address(seeds.deep_view(), program_id@) is None,
        },
{
    let parts: Vec<&[u8]> = seeds.iter().map(|seed| seed.as_slice()).collect();
    let program = Pubkey::new_from_array(program_id.bytes);
    Pubkey::try_find_program_address(&parts, &program).map(
        |(key, bump)| (Address { bytes: key.to_bytes() }, bump),
    )
}

/// The derived address for `seeds` under `program`, as an address.
pub open spec fn derived_address(seeds: Seq<Seq<u8>>, program: Address) -> Option<(Address, u8)> {
    match program_address(seeds, program@) {
        Some((bytes, bump)) => Some((address_of(bytes), bump)),
        None => None,
    }
}

/// The address of this program.
pub open spec fn program_id() -> Address {
    Address { bytes: PROGRAM_ID }
}

/// Bytes of the domain tag of user records.
pub open spec fn user_data_tag() -> Seq<u8> {
    seq![117u8, 115u8, 101u8, 114u8, 95u8, 100u8, 97u8, 116u8, 97u8]
}

/// Bytes of the domain tag of mint-authority markers.
pub open spec fn mint_authority_tag() -> Seq<u8> {
    seq![
        109u8, 105u8, 110u8, 116u8, 95u8, 97u8, 117u8, 116u8, 104u8, 111u8, 114u8, 105u8, 116u8,
        121u8,
    ]
}

/// Seeds of the user record of `user` in `collection`.
pub open spec fn user_data_seeds(collection: Address, user: Address) -> Seq<Seq<u8>> {
    seq![user_data_tag(), collection@, user@]
}

/// Seeds of the mint-authority marker of `collection`.
pub open spec fn mint_authority_seeds(collection: Address) -> Seq<Seq<u8>> {
    seq![mint_authority_tag(), collection@]
}

/// Seeds with which the program signs for the user record of `user` in
/// `collection`: the seeds of its address and the bump.
pub open spec fn user_data_signer(collection: Address, user: Address, bump: u8) -> Seq<Seq<u8>> {
    seq![user_data_tag(), collection@, user@, seq![bump]]
}

/// Seeds with which the program signs for the mint-authority marker of
/// `collection`: the seeds of its address and the bump.
pub open spec fn mint_authority_signer(collection: Address, bump: u8) -> Seq<Seq<u8>> {
    seq![mint_authority_tag(), collection@, seq![bump]]
}

/// The address of the user record of `user` in `collection`, with its bump.
pub open spec fn user_data_address(collection: Address, user: Address) -> Option<(Address, u8)> {
    derived_address(user_data_seeds(collection, user), program_id())
}

/// The address of the mint-authority marker of `collection`, with its bump.
pub open spec fn mint_authority_address(collection: Address) -> Option<(Address, u8)> {
    derived_address(mint_authority_seeds(collection), program_id())
}

/// The address of this program.
pub fn id() -> (program: Address)
    ensures
        program == program_id(),
{
    Address { bytes: PROGRAM_ID }
}

/// The bytes of a domain tag.
pub fn tag_bytes(tag: &str) -> (bytes: Vec<u8>)
    ensures
        bytes@ == tag.spec_bytes(),
{
    let mut bytes: Vec<u8> = Vec::new();
    append_bytes(&mut bytes, tag.as_bytes());
    bytes
}

/// The seeds with which the program signs for a user record.
pub fn user_data_signer_seeds(collection: &Address, user: &Address, bump: u8) -> (seeds: Vec<
    Vec<u8>,
>)
    ensures
        seeds.deep_view() == user_data_signer(*collection, *user, bump),
{
    let mut seeds: Vec<Vec<u8>> = Vec::new();
    seeds.push(tag_bytes(USER_DATA));
    seeds.push(collection.to_vec());
    seeds.push(user.to_vec());
    let mut last: Vec<u8> = Vec::new();
    last.push(bump);
    seeds.push(last);
    proof {
        reveal_strlit("user_data");
        is_ascii_spec_bytes(USER_DATA);
        assert(USER_DATA.spec_bytes() =~= user_data_tag());
        assert(seeds.deep_view() =~~= user_data_signer(*collection, *user, bump));
    }
    seeds
}

/// The seeds with which the program signs for a mint-authority marker.
pub fn mint_authority_signer_seeds(collection: &Address, bump: u8) -> (seeds: Vec<Vec<u8>>)
    ensures
        seeds.deep_view() == mint_authority_signer(*collection, bump),
{
    let mut seeds: Vec<Vec<u8>> = Vec::new();
    seeds.push(tag_bytes(MINT_AUTHORITY));
    seeds.push(collection.to_vec());
    let mut last: Vec<u8> = Vec::new();
    last.push(bump);
    seeds.push(last);
    proof {
        reveal_strlit("mint_authority");
        is_ascii_spec_bytes(MINT_AUTHORITY);
        assert(MINT_AUTHORITY.spec_bytes() =~= mint_authority_tag());
        assert(seeds.deep_view() =~~= mint_authority_signer(*collection, bump));
    }
    seeds
}

/// Derives the address for `seeds` under `program`. `None` where the
/// derivation gives no address.
pub fn find_program_address(seeds: &Vec<Vec<u8>>, program: &Address) -> (found: Option<
    (Address, u8),
>)
    ensures
        found == derived_address(seeds.deep_view(), *program),
{
    let found = try_find_program_address(seeds, program);
    proof {
        if let Some((address, bump)) = found {
            lemma_address_of(address);
        }
    }
    found
}

/// Derives the address of the user record of `user` in the collection
/// `airdrop_config`.
pub fn find_airdrop_user_data(airdrop_config: &Address, user: &Address) -> (found: Option<
    (Address, u8),
>)
    ensures
        found == user_data_address(*airdrop_config, *user),
{
    let mut seeds: Vec<Vec<u8>> = Vec::new();
    seeds.push(tag_bytes(USER_DATA));
    seeds.push(airdrop_config.to_vec());
    seeds.push(user.to_vec());
    proof {
        reveal_strlit("user_data");
        is_ascii_spec_bytes(USER_DATA);
        assert(USER_DATA.spec_bytes() =~= user_data_tag());
        assert(seeds.deep_view() =~~= user_data_seeds(*airdrop_config, *user));
    }
    find_program_address(&seeds, &id())
}

/// Derives the address of the mint-authority marker of the collection
/// `airdrop_config`.
pub fn find_mint_authority(airdrop_config: &Address) -> (found: Option<(Address, u8)>)
    ensures
        found == mint_authority_address(*airdrop_config),
{
    let mut seeds: Vec<Vec<u8>> = Vec::new();
    seeds.push(tag_bytes(MINT_AUTHORITY));
    seeds.push(airdrop_config.to_vec());
    proof {
        reveal_strlit("mint_authority");
        is_ascii_spec_bytes(MINT_AUTHORITY);
        assert(MINT_AUTHORITY.spec_bytes() =~= mint_authority_tag());
        assert(seeds.deep_view() =~~= mint_authority_seeds(*airdrop_config));
    }
    find_program_address(&seeds, &id())
}

} // verus!
