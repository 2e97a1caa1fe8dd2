use vstd::prelude::*;

verus! {

/// An account that an instruction reads or writes.
#[derive(Clone, Copy, Debug)]
pub struct AccountSpec {
    pub pubkey: [u8; 32],
    pub is_signer: bool,
    pub is_writable: bool,
}

/// The token accounts of a vault or of a user, one per mint.
#[derive(Clone, Copy, Debug)]
pub struct TokenAccounts {
    pub owner: [u8; 32],
    pub token_a: [u8; 32],
    pub token_b: [u8; 32],
}

pub open spec fn writable(k: [u8; 32], signer: bool) -> AccountSpec {
    AccountSpec { pubkey: k, is_signer: signer, is_writable: true }
}

pub open spec fn readonly(k: [u8; 32]) -> AccountSpec {
    AccountSpec { pubkey: k, is_signer: false, is_writable: false }
}

pub(crate) fn w(k: [u8; 32], signer: bool) -> (r: AccountSpec)
    ensures
        r == writable(k, signer),
{
    AccountSpec { pubkey: k, is_signer: signer, is_writable: true }
}

pub(crate) fn ro(k: [u8; 32]) -> (r: AccountSpec)
    ensures
        r == readonly(k),
{
    AccountSpec { pubkey: k, is_signer: false, is_writable: false }
}

/// `(a, b)` for a swap from A to B, `(b, a)` the other way: which of two
/// accounts takes the input and which gives the output.
pub open spec fn in_out<T>(is_a_to_b: bool, a: T, b: T) -> (T, T) {
    if is_a_to_b {
        (a, b)
    } else {
        (b, a)
    }
}

pub(crate) fn pick_in_out(is_a_to_b: bool, a: [u8; 32], b: [u8; 32]) -> (r: ([u8; 32], [u8; 32]))
    ensures
        r == in_out(is_a_to_b, a, b),
{
    if is_a_to_b {
        (a, b)
    } else {
        (b, a)
    }
}

/// Swapping in one direction and then in the other uses the same accounts,
/// with the input and output accounts exchanged.
pub proof fn lemma_in_out_swap<T>(a: T, b: T)
    ensures
        in_out(true, a, b).0 == in_out(false, a, b).1,
        in_out(true, a, b).1 == in_out(false, a, b).0,
{
}

} // verus!
