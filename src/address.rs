use vstd::prelude::*;

use crate::key::Key;
use anchor_lang::solana_program::pubkey::Pubkey;

verus! {

/// The label that starts the seeds of every delegation record: `b"base-account"`.
pub open spec fn seed_label() -> Seq<u8> {
    seq![98u8, 97u8, 115u8, 101u8, 45u8, 97u8, 99u8, 99u8, 111u8, 117u8, 110u8, 116u8]
}

/// The seeds that locate the record of a transfer authority.
pub open spec fn record_seeds(transfer_authority: Seq<u8>) -> Seq<Seq<u8>> {
    seq![seed_label(), transfer_authority]
}

/// The seeds, bump included, with which the record signs for itself.
pub open spec fn signer_seeds(transfer_authority: Seq<u8>, bump: u8) -> Seq<Seq<u8>> {
    record_seeds(transfer_authority).push(seq![bump])
}

pub open spec fn seeds_view(seeds: Seq<Vec<u8>>) -> Seq<Seq<u8>> {
    seeds.map_values(|s: Vec<u8>| s@)
}

/// The address that `Pubkey::create_program_address` derives from the seeds
/// and the program id, or `None` where it reports an error.
pub uninterp spec fn program_address(seeds: Seq<Seq<u8>>, program_id: Seq<u8>) -> Option<Seq<u8>>;

/// Relies on solana_program's `Pubkey::create_program_address`: the address
/// is computed from the seeds and the program id alone, and an error (here
/// `None`) is reported when a seed is too long or the hash lies on the curve.
#[verifier::external_body]
pub(crate) fn create_program_address(seeds: &Vec<Vec<u8>>, program_id: &Key) -> (r: Option<Key>)
    ensures
        r is Some ==> program_address(seeds_view(seeds@), program_id@) == Some(r->0@),
        r is None ==> program_address(seeds_view(seeds@), program_id@) is None,
{
    let slices: Vec<&[u8]> = seeds.iter().map(|s| s.as_slice()).collect();
    let program = Pubkey::new_from_array(program_id.bytes);
    Pubkey::create_program_address(&slices, &program).ok().map(|p| Key { bytes: p.to_bytes() })
}

/// Relies on solana_program's `Pubkey::try_find_program_address`: it tries
/// the bumps from 255 down to 1, appending `[bump]` to the seeds, and returns
/// the first for which `create_program_address` succeeds, with that address;
/// it returns `None` where no bump in 1..=255 succeeds.
#[verifier::external_body]
pub(crate) fn try_find_program_address(seeds: &Vec<Vec<u8>>, program_id: &Key) -> (r: Option<(Key, u8)>)
    ensures
        match r {
            Some((address, bump)) => {
                &&& 1 <= bump
                &&& program_address(seeds_view(seeds@).push(seq![bump]), program_id@) == Some(address@)
                &&& forall|b: u8|
                    bump < b ==> #[trigger] program_address(
                        seeds_view(seeds@).push(seq![b]),
                        program_id@,
                    ) is None
            },
            None => forall|b: u8|
                1 <= b ==> #[trigger] program_address(
                    seeds_view(seeds@).push(seq![b]),
                    program_id@,
                ) is None,
        },
{
    let slices: Vec<&[u8]> = seeds.iter().map(|s| s.as_slice()).collect();
    let program = Pubkey::new_from_array(program_id.bytes);
    Pubkey::try_find_program_address(&slices, &program).map(|(p, bump)| (Key { bytes: p.to_bytes() }, bump))
}

/// The seed label as bytes.
pub fn base_account_seed() -> (r: Vec<u8>)
    ensures
        r@ == seed_label(),
{
    let r: Vec<u8> = vec![98u8, 97u8, 115u8, 101u8, 45u8, 97u8, 99u8, 99u8, 111u8, 117u8, 110u8, 116u8];
    proof {
        assert(r@ =~= seed_label());
    }
    r
}

/// The seeds that locate the record of `transfer_authority`.
pub fn base_account_seeds(transfer_authority: &Key) -> (r: Vec<Vec<u8>>)
    ensures
        seeds_view(r@) == record_seeds(transfer_authority@),
{
    let mut r: Vec<Vec<u8>> = Vec::new();
    r.push(base_account_seed());
    r.push(transfer_authority.as_vec());
    proof {
        assert(seeds_view(r@) =~= record_seeds(transfer_authority@));
    }
    r
}

/// The seeds, bump included, with which the record of `transfer_authority`
/// signs as its own address.
pub fn base_account_signer_seeds(transfer_authority: &Key, bump: u8) -> (r: Vec<Vec<u8>>)
    ensures
        seeds_view(r@) == signer_seeds(transfer_authority@, bump),
{
    let mut r = base_account_seeds(transfer_authority);
    let ghost before = r@;
    let mut last: Vec<u8> = Vec::new();
    last.push(bump);
    r.push(last);
    proof {
        assert(last@ =~= seq![bump]);
        assert(seeds_view(r@) =~= seeds_view(before).push(seq![bump]));
    }
    r
}

} // verus!
