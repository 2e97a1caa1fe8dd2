use vstd::prelude::*;
use solana_sdk::pubkey::Pubkey;

use crate::instruction::push_all;

verus! {

/// The program-derived address and bump that `Pubkey::try_find_program_address`
/// gives for `seeds` under `program_id`; none when no bump seed gives an
/// address off the curve, or when the seeds break its limits.
pub uninterp spec fn program_address(seeds: Seq<Seq<u8>>, program_id: Seq<u8>) -> Option<(Seq<u8>, u8)>;

/// Seeds within the limits of program address derivation: fewer than 16
/// seeds of at most 32 bytes each.
pub open spec fn seeds_in_bounds(seeds: Seq<Seq<u8>>) -> bool {
    &&& seeds.len() < 16
    &&& forall|i: int| 0 <= i < seeds.len() ==> #[trigger] seeds[i].len() <= 32
}

/// The address alone of a derivation, when there is one.
pub open spec fn address_of(seeds: Seq<Seq<u8>>, program_id: Seq<u8>) -> Option<Seq<u8>> {
    match program_address(seeds, program_id) {
        Some(p) => Some(p.0),
        None => None,
    }
}

/// A key, when there is one, as a byte sequence.
pub open spec fn key_view(k: Option<[u8; 32]>) -> Option<Seq<u8>> {
    match k {
        Some(a) => Some(a@),
        None => None,
    }
}

/// Calls `Pubkey::try_find_program_address` (solana-address). Claimed: the
/// address and bump, or their absence, are what `program_address` names for
/// the seeds and the program; seeds beyond the limits give none (the source
/// returns `None` for 16 seeds or more, and stops at the first seed longer
/// than 32 bytes). The call does not panic.
#[verifier::external_body]
pub(crate) fn try_find_program_address(seeds: &Vec<Vec<u8>>, program_id: [u8; 32]) -> (r: Option<([u8; 32], u8)>)
    ensures
        program_address(seeds.deep_view(), program_id@) == match r {
            Some(p) => Some((p.0@, p.1)),
            None => None::<(Seq<u8>, u8)>,
        },
        !seeds_in_bounds(seeds.deep_view()) ==> r is None,
{
    let slices: Vec<&[u8]> = seeds.iter().map(|s| s.as_slice()).collect();
    match Pubkey::try_find_program_address(&slices, &Pubkey::new_from_array(program_id)) {
        Some((address, bump)) => Some((address.to_bytes(), bump)),
        None => None,
    }
}

/// The bytes of a key or seed as a vector.
pub(crate) fn key_bytes(bytes: &[u8]) -> (r: Vec<u8>)
    ensures
        r@ == bytes@,
        r.deep_view() == bytes@,
{
    let mut v: Vec<u8> = Vec::new();
    push_all(&mut v, bytes);
    assert(v.deep_view() =~= v@);
    v
}

/// The address for `seeds` under `program_id`, when there is one.
pub(crate) fn derive_address(seeds: &Vec<Vec<u8>>, program_id: [u8; 32]) -> (r: Option<[u8; 32]>)
    ensures
        key_view(r) == address_of(seeds.deep_view(), program_id@),
{
    match try_find_program_address(seeds, program_id) {
        Some(p) => Some(p.0),
        None => None,
    }
}

/// The id of the SPL token program, `TokenkegQfeZyiNwAJbNbGKPFXCWuBvf9Ss623VQ5DA`.
pub open spec fn spec_token_program_id() -> Seq<u8> {
    seq![
        6u8, 221, 246, 225, 215, 101, 161, 147, 217, 203, 225, 70, 206, 235, 121, 172, 28, 180,
        133, 237, 95, 91, 55, 145, 58, 140, 245, 133, 126, 255, 0, 169,
    ]
}

/// The id of the associated token account program,
/// `ATokenGPvbdGVxr1b2hvZbsiqW5xWH25efTNsLJA8knL`.
pub open spec fn spec_associated_token_program_id() -> Seq<u8> {
    seq![
        140u8, 151, 37, 143, 78, 36, 137, 241, 187, 61, 16, 41, 20, 142, 13, 131, 11, 90, 19, 153,
        218, 255, 16, 132, 4, 142, 123, 216, 219, 233, 248, 89,
    ]
}

/// The id of the SPL token program.
pub fn token_program_id() -> (r: [u8; 32])
    ensures
        r@ == spec_token_program_id(),
{
    let r: [u8; 32] = [
        6, 221, 246, 225, 215, 101, 161, 147, 217, 203, 225, 70, 206, 235, 121, 172, 28, 180,
        133, 237, 95, 91, 55, 145, 58, 140, 245, 133, 126, 255, 0, 169,
    ];
    assert(r@ =~= spec_token_program_id());
    r
}

/// The id of the associated token account program.
pub fn associated_token_program_id() -> (r: [u8; 32])
    ensures
        r@ == spec_associated_token_program_id(),
{
    let r: [u8; 32] = [
        140, 151, 37, 143, 78, 36, 137, 241, 187, 61, 16, 41, 20, 142, 13, 131, 11, 90, 19, 153,
        218, 255, 16, 132, 4, 142, 123, 216, 219, 233, 248, 89,
    ];
    assert(r@ =~= spec_associated_token_program_id());
    r
}

/// The associated token account of `wallet` for `mint` under the classic
/// token program: the program address of the wallet, the token program and
/// the mint under the associated token account program, when there is one.
pub open spec fn associated_token_address(wallet: Seq<u8>, mint: Seq<u8>) -> Option<Seq<u8>> {
    address_of(seq![wallet, spec_token_program_id(), mint], spec_associated_token_program_id())
}

/// The associated token account of `wallet` for `mint`, as
/// `spl_associated_token_account::get_associated_token_address` derives it,
/// or none where that derivation finds no bump seed.
pub fn get_associated_token_address(wallet: [u8; 32], mint: [u8; 32]) -> (r: Option<[u8; 32]>)
    ensures
        key_view(r) == associated_token_address(wallet@, mint@),
{
    let mut seeds: Vec<Vec<u8>> = Vec::new();
    seeds.push(key_bytes(&wallet));
    seeds.push(key_bytes(&token_program_id()));
    seeds.push(key_bytes(&mint));
    assert(seeds.deep_view() =~= seq![wallet@, spec_token_program_id(), mint@]);
    derive_address(&seeds, associated_token_program_id())
}

} // verus!
