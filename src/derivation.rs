use vstd::prelude::*;
use anchor_lang::prelude::Pubkey;
use crate::key::Identity;

verus! {

/// The fixed domain tag that separates counter records from every other
/// address derived under the same program.
pub open spec fn counter_tag() -> Seq<u8> {
    seq![99u8, 111u8, 117u8, 110u8, 116u8, 101u8, 114u8]
}

/// The domain tag as bytes (`"counter"`).
pub fn domain_tag() -> (r: [u8; 7])
    ensures
        r@ == counter_tag(),
{
    let r: [u8; 7] = [99u8, 111u8, 117u8, 110u8, 116u8, 101u8, 114u8];
    assert(r@ =~= counter_tag());
    r
}

/// What the program-address search returns for the two seeds `owner` and
/// `tag` under `program_id`: the first off-curve address found with its bump
/// seed, or nothing when no bump seed works.
pub uninterp spec fn program_address_of(owner: Seq<u8>, tag: Seq<u8>, program_id: Seq<u8>) -> Option<(Seq<u8>, u8)>;

/// Relies on `Pubkey::try_find_program_address` (solana-address, re-exported
/// by anchor_lang): a pure function of the seeds and the program id, which
/// returns `None` only when no bump seed yields an off-curve address.
#[verifier::external_body]
fn try_find_program_address(owner: &[u8; 32], tag: &[u8; 7], program_id: &[u8; 32]) -> (r: Option<([u8; 32], u8)>)
    ensures
        r matches Some(found) ==> program_address_of(owner@, tag@, program_id@) == Some((found.0@, found.1)),
        r is None ==> program_address_of(owner@, tag@, program_id@) is None,
{
    let program = Pubkey::new_from_array(*program_id);
    Pubkey::try_find_program_address(&[owner, tag], &program).map(|(a, b)| (a.to_bytes(), b))
}

/// The address (and bump seed) of the counter record owned by `owner`.
pub open spec fn counter_address(owner: Seq<u8>, program_id: Seq<u8>) -> Option<(Seq<u8>, u8)> {
    program_address_of(owner, counter_tag(), program_id)
}

/// Derives the storage address of `owner`'s counter record under
/// `program_id`, with its bump seed. Anyone who knows the owner and the
/// program can recompute it; no stored state is consulted.
pub fn find_counter_address(owner: &Identity, program_id: &Identity) -> (r: Option<(Identity, u8)>)
    ensures
        r matches Some(found) ==> counter_address(owner@, program_id@) == Some((found.0@, found.1)),
        r is None ==> counter_address(owner@, program_id@) is None,
{
    let tag = domain_tag();
    match try_find_program_address(&owner.bytes, &tag, &program_id.bytes) {
        Some((address, bump)) => Some((Identity { bytes: address }, bump)),
        None => None,
    }
}

} // verus!
