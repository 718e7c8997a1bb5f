//! The derived authority: the keyless identity that signs for a pool's
//! treasury.
//!
//! It is computed from a fixed namespace tag, the pool's token identity and a
//! one-byte nonce (the bump), under the program that owns the pool. Nobody
//! holds a private key for it: only program logic that presents the same three
//! inputs can sign as it.

use anchor_lang::prelude::Pubkey;
use vstd::prelude::*;

use crate::identity::Identity;

verus! {

/// The address that `Pubkey::create_program_address` derives from `seeds`
/// under `program_id`, or `None` where it refuses the seeds.
pub uninterp spec fn program_address(seeds: Seq<Seq<u8>>, program_id: Seq<u8>) -> Option<Seq<u8>>;

/// The bytes of an identity that may be absent.
pub open spec fn identity_view(id: Option<Identity>) -> Option<Seq<u8>> {
    match id {
        Some(id) => Some(id@),
        None => None,
    }
}

/// The namespace tag of every treasury: the ASCII bytes of `treasury`.
pub open spec fn namespace_tag() -> Seq<u8> {
    seq![116u8, 114u8, 101u8, 97u8, 115u8, 117u8, 114u8, 121u8]
}

/// The seeds that locate a token's treasury, before the nonce is added.
pub open spec fn address_seeds(token_mint: Seq<u8>) -> Seq<Seq<u8>> {
    seq![namespace_tag(), token_mint]
}

/// The seeds that sign for a token's treasury: tag, token identity, nonce.
pub open spec fn signer_seeds(token_mint: Seq<u8>, bump: u8) -> Seq<Seq<u8>> {
    address_seeds(token_mint).push(seq![bump])
}

/// The identity that signs for the treasury of `token_mint` when the nonce is
/// `bump`, if there is one.
pub open spec fn derived_authority(program_id: Seq<u8>, token_mint: Seq<u8>, bump: u8) -> Option<
    Seq<u8>,
> {
    program_address(signer_seeds(token_mint, bump), program_id)
}

/// `bump` is the nonce under which a token's treasury is created: the largest
/// nonzero one that derives an identity.
pub open spec fn is_creation_bump(program_id: Seq<u8>, token_mint: Seq<u8>, bump: u8) -> bool {
    &&& bump >= 1
    &&& derived_authority(program_id, token_mint, bump) is Some
    &&& forall|b: u8| bump < b ==> #[trigger] derived_authority(program_id, token_mint, b) is None
}

/// No nonzero nonce derives an identity for the token.
pub open spec fn no_creation_bump(program_id: Seq<u8>, token_mint: Seq<u8>) -> bool {
    forall|b: u8| 1 <= b ==> #[trigger] derived_authority(program_id, token_mint, b) is None
}

/// Calls `Pubkey::create_program_address`. The claim is that its answer is a
/// function of the seeds and the program identity alone, and that both kinds
/// of refusal (seeds out of bounds, a result that is a curve point) come back
/// as `None`.
#[verifier::external_body]
fn create_program_address(seeds: &Vec<Vec<u8>>, program_id: &Identity) -> (derived: Option<
    Identity,
>)
    ensures
        identity_view(derived) == program_address(seeds.deep_view(), program_id@),
{
    let parts: Vec<&[u8]> = seeds.iter().map(|seed| seed.as_slice()).collect();
    let program = Pubkey::new_from_array(program_id.bytes);
    match Pubkey::create_program_address(&parts, &program) {
        Ok(address) => Some(Identity { bytes: address.to_bytes() }),
        Err(_) => None,
    }
}

/// Calls `Pubkey::try_find_program_address`. With fewer than sixteen seeds of
/// at most thirty-two bytes each, it appends a one-byte nonce to the seeds,
/// tries the nonces from 255 down to 1 and answers with the first that
/// `create_program_address` accepts, together with the address derived; it
/// answers `None` when none of them is accepted. Nonce 0 is never tried.
#[verifier::external_body]
fn try_find_program_address(seeds: &Vec<Vec<u8>>, program_id: &Identity) -> (found: Option<
    (Identity, u8),
>)
    requires
        seeds@.len() < 16,
        forall|i: int| 0 <= i < seeds@.len() ==> (#[trigger] seeds@[i])@.len() <= 32,
    ensures
        match found {
            Some((address, bump)) => {
                &&& bump >= 1
                &&& program_address(seeds.deep_view().push(seq![bump]), program_id@) == Some(
                    address@,
                )
                &&& forall|b: u8|
                    bump < b ==> #[trigger] program_address(
                        seeds.deep_view().push(seq![b]),
                        program_id@,
                    ) is None
            },
            None => forall|b: u8|
                1 <= b ==> #[trigger] program_address(
                    seeds.deep_view().push(seq![b]),
                    program_id@,
                ) is None,
        },
{
    let parts: Vec<&[u8]> = seeds.iter().map(|seed| seed.as_slice()).collect();
    let program = Pubkey::new_from_array(program_id.bytes);
    match Pubkey::try_find_program_address(&parts, &program) {
        Some((address, bump)) => Some((Identity { bytes: address.to_bytes() }, bump)),
        None => None,
    }
}

/// The namespace tag as bytes.
fn tag_bytes() -> (tag: Vec<u8>)
    ensures
        tag@ == namespace_tag(),
{
    let tag: Vec<u8> = vec![116u8, 114u8, 101u8, 97u8, 115u8, 117u8, 114u8, 121u8];
    assert(tag@ =~= namespace_tag());
    tag
}

/// The seeds that locate the treasury of `token_mint`: the namespace tag, then
/// the token identity's bytes.
pub fn treasury_address_seeds(token_mint: &Identity) -> (seeds: Vec<Vec<u8>>)
    ensures
        seeds.deep_view() == address_seeds(token_mint@),
{
    let mut seeds: Vec<Vec<u8>> = Vec::new();
    seeds.push(tag_bytes());
    seeds.push(token_mint.to_bytes());
    assert(seeds.deep_view() =~~= address_seeds(token_mint@));
    seeds
}

/// The seeds that sign for the treasury of `token_mint`: the namespace tag,
/// the token identity's bytes, and the nonce as a single byte.
pub fn treasury_signer_seeds(token_mint: &Identity, bump: u8) -> (seeds: Vec<Vec<u8>>)
    ensures
        seeds.deep_view() == signer_seeds(token_mint@, bump),
{
    let mut seeds: Vec<Vec<u8>> = treasury_address_seeds(token_mint);
    let mut nonce: Vec<u8> = Vec::new();
    nonce.push(bump);
    seeds.push(nonce);
    assert(seeds.deep_view() =~~= signer_seeds(token_mint@, bump));
    seeds
}

/// Derives the identity that signs for the treasury of `token_mint` from the
/// nonce `bump`. The same three inputs always give the same answer; a nonce
/// for which no identity exists gives `None`.
pub fn derive_authority(program_id: &Identity, token_mint: &Identity, bump: u8) -> (derived: Option<
    Identity,
>)
    ensures
        identity_view(derived) == derived_authority(program_id@, token_mint@, bump),
{
    let seeds = treasury_signer_seeds(token_mint, bump);
    create_program_address(&seeds, program_id)
}

/// Searches for the nonce under which the treasury of `token_mint` is
/// created, and the identity it derives.
pub fn find_authority(program_id: &Identity, token_mint: &Identity) -> (found: Option<
    (Identity, u8),
>)
    ensures
        match found {
            Some((address, bump)) => {
                &&& is_creation_bump(program_id@, token_mint@, bump)
                &&& derived_authority(program_id@, token_mint@, bump) == Some(address@)
            },
            None => no_creation_bump(program_id@, token_mint@),
        },
{
    let seeds = treasury_address_seeds(token_mint);
    assert(seeds@.len() == 2 && seeds@[0]@.len() == 8 && seeds@[1]@.len() == 32) by {
        assert(seeds.deep_view().len() == seeds@.len());
        assert(seeds.deep_view()[0] == seeds@[0].deep_view());
        assert(seeds.deep_view()[1] == seeds@[1].deep_view());
        assert(seeds@[0].deep_view().len() == seeds@[0]@.len());
        assert(seeds@[1].deep_view().len() == seeds@[1]@.len());
        assert(namespace_tag().len() == 8);
        assert(token_mint@.len() == 32);
    }
    try_find_program_address(&seeds, program_id)
}

} // verus!
