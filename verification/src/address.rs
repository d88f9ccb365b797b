//! Addresses of a campaign's sub-accounts. Each is derived from the program's
//! identity, a tag that names the role, and the identities the account
//! belongs to; the derivation itself is the ledger platform's.

use vstd::prelude::*;
use crate::types::Pubkey;

verus! {

/// What a sub-account is for.
#[derive(Clone, Copy, Debug, PartialEq, Eq, Structural)]
pub enum Role {
    Treasury,
    Donation,
    Proposal,
    Vote,
}

/// The tag of a role: its name in lower-case ASCII.
pub open spec fn role_tag(role: Role) -> Seq<u8> {
    match role {
        Role::Treasury => seq![116u8, 114u8, 101u8, 97u8, 115u8, 117u8, 114u8, 121u8],
        Role::Donation => seq![100u8, 111u8, 110u8, 97u8, 116u8, 105u8, 111u8, 110u8],
        Role::Proposal => seq![112u8, 114u8, 111u8, 112u8, 111u8, 115u8, 97u8, 108u8],
        Role::Vote => seq![118u8, 111u8, 116u8, 101u8],
    }
}

/// The bytes of each identity, in order.
pub open spec fn key_bytes(keys: Seq<Pubkey>) -> Seq<Seq<u8>> {
    Seq::new(keys.len(), |i: int| keys[i].bytes@)
}

/// The address, with its bump seed, that the platform derives for a program
/// from a tag followed by the given identities, where it finds one.
pub uninterp spec fn program_address(program_id: Seq<u8>, tag: Seq<u8>, keys: Seq<Seq<u8>>) -> Option<
    (Seq<u8>, u8),
>;

/// Calls `Pubkey::try_find_program_address` of `anchor_lang` (the one of
/// `solana_program`) with the seeds `tag` and then each of `keys`. Trusted:
/// the result is the derived address and bump seed, a function of the seeds
/// and the program's identity alone, and `None` where the platform finds no
/// address for them.
#[verifier::external_body]
fn find_address(program_id: &Pubkey, tag: &Vec<u8>, keys: &Vec<Pubkey>) -> (r: Option<(Pubkey, u8)>)
    ensures
        match r {
            Some((key, bump)) => program_address(program_id.bytes@, tag@, key_bytes(keys@)) == Some(
                (key.bytes@, bump),
            ),
            None => program_address(program_id.bytes@, tag@, key_bytes(keys@)) is None,
        },
{
    let program = anchor_lang::prelude::Pubkey::new_from_array(program_id.bytes);
    let mut seeds: Vec<&[u8]> = Vec::new();
    seeds.push(tag.as_slice());
    for key in keys.iter() {
        seeds.push(&key.bytes);
    }
    match anchor_lang::prelude::Pubkey::try_find_program_address(&seeds, &program) {
        Some((key, bump)) => Some((Pubkey { bytes: key.to_bytes() }, bump)),
        None => None,
    }
}

/// The tag of a role, as bytes.
pub fn tag_of(role: Role) -> (tag: Vec<u8>)
    ensures
        tag@ == role_tag(role),
{
    let tag: Vec<u8> = match role {
        Role::Treasury => vec![116u8, 114u8, 101u8, 97u8, 115u8, 117u8, 114u8, 121u8],
        Role::Donation => vec![100u8, 111u8, 110u8, 97u8, 116u8, 105u8, 111u8, 110u8],
        Role::Proposal => vec![112u8, 114u8, 111u8, 112u8, 111u8, 115u8, 97u8, 108u8],
        Role::Vote => vec![118u8, 111u8, 116u8, 101u8],
    };
    assert(tag@ =~= role_tag(role));
    tag
}

/// The address and bump seed of the sub-account with the given role that
/// belongs to the given identities, where one can be derived.
pub fn derive_subaccount(program_id: &Pubkey, role: Role, keys: &Vec<Pubkey>) -> (r: Option<
    (Pubkey, u8),
>)
    ensures
        match r {
            Some((key, bump)) => program_address(
                program_id.bytes@,
                role_tag(role),
                key_bytes(keys@),
            ) == Some((key.bytes@, bump)),
            None => program_address(program_id.bytes@, role_tag(role), key_bytes(keys@)) is None,
        },
{
    let tag = tag_of(role);
    find_address(program_id, &tag, keys)
}

/// The bytes of the treasury address of a campaign, where one can be derived.
pub open spec fn treasury_bytes(program_id: Pubkey, campaign_key: Pubkey) -> Option<Seq<u8>> {
    match program_address(
        program_id.bytes@,
        role_tag(Role::Treasury),
        key_bytes(seq![campaign_key]),
    ) {
        Some((bytes, _)) => Some(bytes),
        None => None,
    }
}

/// The address of the treasury of a campaign, where one can be derived.
pub fn treasury_address(program_id: &Pubkey, campaign_key: &Pubkey) -> (r: Option<Pubkey>)
    ensures
        match r {
            Some(key) => treasury_bytes(*program_id, *campaign_key) == Some(key.bytes@),
            None => treasury_bytes(*program_id, *campaign_key) is None,
        },
{
    let mut keys: Vec<Pubkey> = Vec::new();
    keys.push(*campaign_key);
    assert(keys@ =~= seq![*campaign_key]);
    match derive_subaccount(program_id, Role::Treasury, &keys) {
        Some((key, _)) => Some(key),
        None => None,
    }
}

/// Whether `candidate` is the treasury of the campaign: the substitution of
/// another account for the treasury is told apart here.
pub fn is_treasury_of(program_id: &Pubkey, campaign_key: &Pubkey, candidate: &Pubkey) -> (r: bool)
    ensures
        r == (treasury_bytes(*program_id, *campaign_key) == Some(candidate.bytes@)),
{
    match treasury_address(program_id, campaign_key) {
        Some(key) => {
            let r = key.same(candidate);
            proof {
                if key.bytes@ == candidate.bytes@ {
                    assert(key.bytes@ =~= candidate.bytes@);
                    assert(key.bytes == candidate.bytes);
                }
            }
            r
        },
        None => false,
    }
}

} // verus!
