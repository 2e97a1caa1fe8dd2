use vstd::prelude::*;
use sha2::{Digest, Sha256};
use vstd::string::StringSliceAdditionalSpecFns;


verus! {

/// The SHA-256 digest of `data`, as computed by the `sha2` crate.
pub uninterp spec fn sha256_digest(data: Seq<u8>) -> Seq<u8>;

/// Calls `sha2::Sha256::digest`. Claimed: the result is the digest that
/// `sha256_digest` names for the input bytes, 32 bytes long (the length is
/// fixed by the output type `GenericArray<u8, U32>`).
#[verifier::external_body]
fn sha256(data: &[u8]) -> (r: Vec<u8>)
    ensures
        r@ == sha256_digest(data@),
        r@.len() == 32,
{
    Sha256::digest(data).to_vec()
}

/// The bytes of the ASCII text `global:`, which prefixes an instruction's
/// name before it is hashed into its discriminator.
pub open spec fn global_prefix() -> Seq<u8> {
    seq![103u8, 108u8, 111u8, 98u8, 97u8, 108u8, 58u8]
}

/// The 8-byte discriminator of the instruction whose name has UTF-8 bytes
/// `name`: the first 8 bytes of SHA-256 of `global:` followed by the name.
pub open spec fn discriminator(name: Seq<u8>) -> Seq<u8> {
    sha256_digest(global_prefix() + name).take(8)
}

/// The bytes that are hashed into the discriminator of the instruction
/// named `name`: `global:` followed by the name.
pub fn discriminator_preimage(name: &str) -> (r: Vec<u8>)
    ensures
        r@ == global_prefix() + name.spec_bytes(),
{
    let name_bytes = name.as_bytes();
    let mut preimage: Vec<u8> = Vec::new();
    preimage.push(103u8);
    preimage.push(108u8);
    preimage.push(111u8);
    preimage.push(98u8);
    preimage.push(97u8);
    preimage.push(108u8);
    preimage.push(58u8);
    assert(preimage@ == global_prefix());
    push_all(&mut preimage, name_bytes);
    preimage
}

/// The discriminator that a digest gives: its first 8 bytes.
pub fn discriminator_from_digest(digest: &Vec<u8>) -> (r: [u8; 8])
    requires
        digest@.len() >= 8,
    ensures
        r@ == digest@.take(8),
{
    let out: [u8; 8] = [
        digest[0],
        digest[1],
        digest[2],
        digest[3],
        digest[4],
        digest[5],
        digest[6],
        digest[7],
    ];
    assert(out@ =~= digest@.take(8));
    out
}

/// The discriminator of the instruction named `name`.
pub fn anchor_discriminator(name: &str) -> (r: [u8; 8])
    ensures
        r@ == discriminator(name.spec_bytes()),
{
    let preimage = discriminator_preimage(name);
    let hash = sha256(preimage.as_slice());
    discriminator_from_digest(&hash)
}

/// Little-endian bytes of `x`.
pub open spec fn le_bytes(x: u64) -> Seq<u8> {
    Seq::new(8, |i: int| ((x >> (8 * i) as u64) & 0xff) as u8)
}

/// Appends the little-endian bytes of `x` to `out`.
pub(crate) fn push_le_u64(out: &mut Vec<u8>, x: u64)
    ensures
        final(out)@ == old(out)@ + le_bytes(x),
{
    let ghost start = out@;
    out.push((x & 0xff) as u8);
    out.push(((x >> 8) & 0xff) as u8);
    out.push(((x >> 16) & 0xff) as u8);
    out.push(((x >> 24) & 0xff) as u8);
    out.push(((x >> 32) & 0xff) as u8);
    out.push(((x >> 40) & 0xff) as u8);
    out.push(((x >> 48) & 0xff) as u8);
    out.push(((x >> 56) & 0xff) as u8);
    assert(x >> 0u64 == x) by (bit_vector);
    assert(out@ =~= start + le_bytes(x));
}

/// Appends all of `bytes` to `out`.
pub(crate) fn push_all(out: &mut Vec<u8>, bytes: &[u8])
    ensures
        final(out)@ == old(out)@ + bytes@,
{
    let ghost start = out@;
    let mut i: usize = 0;
    while i < bytes.len()
        invariant
            i <= bytes@.len(),
            out@ == start + bytes@.subrange(0, i as int),
        decreases bytes@.len() - i,
    {
        out.push(bytes[i]);
        i = i + 1;
    }
    assert(bytes@.subrange(0, bytes@.len() as int) == bytes@);
}

/// Instruction data: the discriminator followed by the little-endian bytes
/// of each argument.
pub open spec fn data_with_u64_args(name: Seq<u8>, args: Seq<u64>) -> Seq<u8>
    decreases args.len(),
{
    if args.len() == 0 {
        discriminator(name)
    } else {
        data_with_u64_args(name, args.drop_last()) + le_bytes(args.last())
    }
}

/// The discriminator of `name` followed by its 8 bytes.
pub(crate) fn discriminator_vec(name: &str) -> (r: Vec<u8>)
    ensures
        r@ == discriminator(name.spec_bytes()),
{
    let d = anchor_discriminator(name);
    let mut out: Vec<u8> = Vec::new();
    push_all(&mut out, &d);
    out
}

/// Data of an instruction taking two `u64` arguments.
pub(crate) fn data_two_args(name: &str, a: u64, b: u64) -> (r: Vec<u8>)
    ensures
        r@ == data_with_u64_args(name.spec_bytes(), seq![a, b]),
{
    let mut out = discriminator_vec(name);
    push_le_u64(&mut out, a);
    push_le_u64(&mut out, b);
    proof {
        reveal_with_fuel(data_with_u64_args, 3);
        assert(seq![a, b].drop_last() =~= seq![a]);
        assert(seq![a].drop_last() =~= Seq::<u64>::empty());
    }
    out
}

/// Data of an instruction taking three `u64` arguments.
pub(crate) fn data_three_args(name: &str, a: u64, b: u64, c: u64) -> (r: Vec<u8>)
    ensures
        r@ == data_with_u64_args(name.spec_bytes(), seq![a, b, c]),
{
    let mut out = data_two_args(name, a, b);
    push_le_u64(&mut out, c);
    proof {
        assert(seq![a, b, c].drop_last() =~= seq![a, b]);
    }
    out
}

} // verus!
