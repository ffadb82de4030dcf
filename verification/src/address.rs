use crate::pubkey::{lemma_pubkey_view_injective, Pubkey};
use vstd::bytes::{spec_u64_to_le_bytes, u64_to_le_bytes};
use vstd::prelude::*;
use vstd::slice::slice_to_vec;
use vstd::string::StringSliceAdditionalSpecFns;

verus! {

/// The program-derived address of a list of seeds under a program, with the
/// bump seed that was found for it; `None` where no bump seed gives one.
pub uninterp spec fn program_address(seeds: Seq<Seq<u8>>, program_id: Seq<u8>) -> Option<(Seq<u8>, u8)>;

/// The byte strings that a list of seeds holds.
pub open spec fn seed_views(seeds: Seq<Vec<u8>>) -> Seq<Seq<u8>> {
    Seq::new(seeds.len(), |i: int| seeds[i]@)
}

/// `r` is what the seeds derive under the program: the address and its bump,
/// or nothing.
pub open spec fn derives(seeds: Seq<Seq<u8>>, program_id: Pubkey, r: Option<(Pubkey, u8)>) -> bool {
    match r {
        Some((key, bump)) => program_address(seeds, program_id@) == Some((key@, bump)),
        None => program_address(seeds, program_id@) is None,
    }
}

/// The address that seeds derive under a program, without the bump.
pub open spec fn derived_address(seeds: Seq<Seq<u8>>, program_id: Pubkey) -> Option<Seq<u8>> {
    match program_address(seeds, program_id@) {
        Some((key, _)) => Some(key),
        None => None,
    }
}

/// Calls `Pubkey::try_find_program_address` of `anchor_lang` (the type is
/// `solana_pubkey::Pubkey`). The result is taken to depend on the seeds and
/// the program id alone, and is named `program_address`; nothing else is
/// claimed of it.
#[verifier::external_body]
fn try_find_program_address(seeds: &Vec<Vec<u8>>, program_id: &Pubkey) -> (r: Option<(Pubkey, u8)>)
    ensures
        match r {
            Some((key, bump)) => program_address(seed_views(seeds@), program_id@) == Some(
                (key@, bump),
            ),
            None => program_address(seed_views(seeds@), program_id@) is None,
        },
{
    let parts: Vec<&[u8]> = seeds.iter().map(|s| s.as_slice()).collect();
    let id = anchor_lang::prelude::Pubkey::new_from_array(program_id.bytes);
    anchor_lang::prelude::Pubkey::try_find_program_address(&parts, &id)
        .map(|(key, bump)| (Pubkey { bytes: key.to_bytes() }, bump))
}

/// Seeds of the factory index of an authority.
pub open spec fn factory_seeds(authority: Pubkey) -> Seq<Seq<u8>> {
    seq!["factory".spec_bytes(), authority@]
}

/// Seeds of the registry record of the asset that an authority created under
/// a sequence number.
pub open spec fn token_seeds(authority: Pubkey, token_count: u64) -> Seq<Seq<u8>> {
    seq!["token".spec_bytes(), authority@, spec_u64_to_le_bytes(token_count)]
}

/// Seeds of the whitelist store of the asset that an authority created under
/// a sequence number.
pub open spec fn whitelist_seeds(authority: Pubkey, token_count: u64) -> Seq<Seq<u8>> {
    seq!["whitelist".spec_bytes(), authority@, spec_u64_to_le_bytes(token_count)]
}

/// Seeds of the minting delegate of an authority.
pub open spec fn mint_authority_seeds(authority: Pubkey) -> Seq<Seq<u8>> {
    seq!["mint_authority".spec_bytes(), authority@]
}

/// Seeds of the record that holds the extra-account recipe of an asset.
pub open spec fn extra_account_metas_seeds(mint: Pubkey) -> Seq<Seq<u8>> {
    seq!["extra-account-metas".spec_bytes(), mint@]
}

fn tag_and_key(tag: &str, key: &Pubkey) -> (seeds: Vec<Vec<u8>>)
    ensures
        seed_views(seeds@) == seq![tag.spec_bytes(), key@],
{
    let mut seeds: Vec<Vec<u8>> = Vec::new();
    seeds.push(slice_to_vec(tag.as_bytes()));
    seeds.push(key.to_vec());
    assert(seed_views(seeds@) =~= seq![tag.spec_bytes(), key@]);
    seeds
}

fn tag_key_and_count(tag: &str, key: &Pubkey, count: u64) -> (seeds: Vec<Vec<u8>>)
    ensures
        seed_views(seeds@) == seq![tag.spec_bytes(), key@, spec_u64_to_le_bytes(count)],
{
    let mut seeds: Vec<Vec<u8>> = Vec::new();
    seeds.push(slice_to_vec(tag.as_bytes()));
    seeds.push(key.to_vec());
    seeds.push(u64_to_le_bytes(count));
    assert(seed_views(seeds@) =~= seq![tag.spec_bytes(), key@, spec_u64_to_le_bytes(count)]);
    seeds
}

/// The address of the factory index of `authority`, with its bump.
pub fn factory_address(program_id: &Pubkey, authority: &Pubkey) -> (r: Option<(Pubkey, u8)>)
    ensures
        derives(factory_seeds(*authority), *program_id, r),
{
    let seeds = tag_and_key("factory", authority);
    try_find_program_address(&seeds, program_id)
}

/// The address of the registry record of the asset that `authority` creates
/// under sequence number `token_count`, with its bump.
pub fn token_data_address(program_id: &Pubkey, authority: &Pubkey, token_count: u64) -> (r: Option<
    (Pubkey, u8),
>)
    ensures
        derives(token_seeds(*authority, token_count), *program_id, r),
{
    let seeds = tag_key_and_count("token", authority, token_count);
    try_find_program_address(&seeds, program_id)
}

/// The address of the whitelist store of the asset that `authority` creates
/// under sequence number `token_count`, with its bump.
pub fn whitelist_address(program_id: &Pubkey, authority: &Pubkey, token_count: u64) -> (r: Option<
    (Pubkey, u8),
>)
    ensures
        derives(whitelist_seeds(*authority, token_count), *program_id, r),
{
    let seeds = tag_key_and_count("whitelist", authority, token_count);
    try_find_program_address(&seeds, program_id)
}

/// The address of the minting delegate of `authority`, with its bump.
pub fn mint_authority_address(program_id: &Pubkey, authority: &Pubkey) -> (r: Option<(Pubkey, u8)>)
    ensures
        derives(mint_authority_seeds(*authority), *program_id, r),
{
    let seeds = tag_and_key("mint_authority", authority);
    try_find_program_address(&seeds, program_id)
}

/// The address of the record that holds the extra-account recipe of the
/// asset `mint`, with its bump.
pub fn extra_account_metas_address(program_id: &Pubkey, mint: &Pubkey) -> (r: Option<(Pubkey, u8)>)
    ensures
        derives(extra_account_metas_seeds(*mint), *program_id, r),
{
    let seeds = tag_and_key("extra-account-metas", mint);
    try_find_program_address(&seeds, program_id)
}

/// Derivation is a function: the same seeds under the same program give the
/// same address and bump, whoever derives them.
pub proof fn lemma_derivation_is_deterministic(
    seeds: Seq<Seq<u8>>,
    program_id: Pubkey,
    first: Option<(Pubkey, u8)>,
    second: Option<(Pubkey, u8)>,
)
    requires
        derives(seeds, program_id, first),
        derives(seeds, program_id, second),
    ensures
        first == second,
{
    if let Some((a, _)) = first {
        if let Some((b, _)) = second {
            lemma_pubkey_view_injective(a, b);
        }
    }
}

} // verus!
