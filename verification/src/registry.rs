use vstd::prelude::*;

use crate::fee::FeeOption;

verus! {

/// Length of the discriminator that opens every program account.
pub const ACCOUNT_DISCRIMINATOR_LEN: usize = 8;

/// Length of a registry account: the discriminator, two mints, the fee tag,
/// the bump and the vault count.
pub const REGISTRY_ACCOUNT_LEN: usize = 75;

/// State of a vault registry account.
#[derive(Clone, Copy, Debug)]
pub struct VaultRegistry {
    pub token_a: [u8; 32],
    pub token_b: [u8; 32],
    pub fee: FeeOption,
    pub bump: u8,
    pub vault_count: u8,
}

/// Why a registry account's data does not decode.
#[derive(Clone, Copy, Debug, PartialEq, Eq, Structural)]
pub enum RegistryDecodeError {
    /// Shorter than the account discriminator.
    AccountTooSmall,
    /// The fields after the discriminator are not exactly a registry.
    InvalidLength,
    /// The fee byte names no tier.
    InvalidFeeTag,
}

/// The registry that account data holds, when its layout is right.
pub open spec fn spec_decode_registry(data: Seq<u8>) -> Result<VaultRegistry, RegistryDecodeError> {
    if data.len() < 8 {
        Err(RegistryDecodeError::AccountTooSmall)
    } else if data.len() < 75 {
        Err(RegistryDecodeError::InvalidLength)
    } else if FeeOption::spec_from_tag(data[72]) is None {
        Err(RegistryDecodeError::InvalidFeeTag)
    } else if data.len() > 75 {
        Err(RegistryDecodeError::InvalidLength)
    } else {
        Ok(
            VaultRegistry {
                token_a: spec_key(data.subrange(8, 40)),
                token_b: spec_key(data.subrange(40, 72)),
                fee: FeeOption::spec_from_tag(data[72])->0,
                bump: data[73],
                vault_count: data[74],
            },
        )
    }
}

/// The key whose bytes are `bytes`.
pub open spec fn spec_key(bytes: Seq<u8>) -> [u8; 32] {
    choose|k: [u8; 32]| k@ == bytes
}

/// Reads the 32 bytes at `start` as a key.
fn read_key(data: &[u8], start: usize) -> (r: [u8; 32])
    requires
        start + 32 <= data@.len(),
    ensures
        r@ == data@.subrange(start as int, start + 32),
{
    let n = data.len();
    let mut k = [0u8; 32];
    let mut i: usize = 0;
    while i < 32
        invariant
            i <= 32,
            n == data@.len(),
            start + 32 <= data@.len(),
            k@.len() == 32,
            forall|j: int| 0 <= j < i ==> k@[j] == data@[start + j],
        decreases 32 - i,
    {
        k[i] = data[start + i];
        i = i + 1;
    }
    assert(k@ =~= data@.subrange(start as int, start + 32));
    k
}

impl VaultRegistry {
    /// Decodes a registry account: the discriminator, then both mints, the
    /// fee tier's tag, the bump and the vault count, with nothing after.
    pub fn from_account_data(data: &[u8]) -> (r: Result<VaultRegistry, RegistryDecodeError>)
        ensures
            r == spec_decode_registry(data@),
    {
        if data.len() < ACCOUNT_DISCRIMINATOR_LEN {
            return Err(RegistryDecodeError::AccountTooSmall);
        }
        if data.len() < REGISTRY_ACCOUNT_LEN {
            return Err(RegistryDecodeError::InvalidLength);
        }
        let token_a = read_key(data, 8);
        let token_b = read_key(data, 40);
        let fee = match FeeOption::from_tag(data[72]) {
            Some(f) => f,
            None => {
                return Err(RegistryDecodeError::InvalidFeeTag);
            },
        };
        if data.len() > REGISTRY_ACCOUNT_LEN {
            return Err(RegistryDecodeError::InvalidLength);
        }
        let r = VaultRegistry { token_a, token_b, fee, bump: data[73], vault_count: data[74] };
        proof {
            assert(token_a == spec_key(data@.subrange(8, 40))) by {
                let k = spec_key(data@.subrange(8, 40));
                assert(k@ == data@.subrange(8, 40));
                assert(k@ =~= token_a@);
                lemma_key_view_injective(k, token_a);
            }
            assert(token_b == spec_key(data@.subrange(40, 72))) by {
                let k = spec_key(data@.subrange(40, 72));
                assert(k@ == data@.subrange(40, 72));
                lemma_key_view_injective(k, token_b);
            }
        }
        Ok(r)
    }

    /// The account data that holds this registry, after the given
    /// discriminator.
    pub open spec fn spec_encode(self, disc: Seq<u8>) -> Seq<u8> {
        disc + self.token_a@ + self.token_b@ + seq![self.fee.spec_tag(), self.bump, self.vault_count]
    }
}

/// Two keys with the same bytes are the same key.
pub proof fn lemma_key_view_injective(a: [u8; 32], b: [u8; 32])
    requires
        a@ == b@,
    ensures
        a == b,
{
    vstd::array::lemma_array_index(a, 0);
    assert(a =~= b) by {
        assert forall|i: int| 0 <= i < 32 implies a[i] == b[i] by {
            vstd::array::lemma_array_index(a, i);
            vstd::array::lemma_array_index(b, i);
        }
    }
}

/// Decoding the account data of a registry gives the registry back, whatever
/// the discriminator's 8 bytes.
pub proof fn lemma_registry_roundtrip(reg: VaultRegistry, disc: Seq<u8>)
    requires
        disc.len() == 8,
    ensures
        spec_decode_registry(reg.spec_encode(disc)) == Ok::<VaultRegistry, RegistryDecodeError>(reg),
{
    let data = reg.spec_encode(disc);
    assert(data.len() == 75);
    assert(data.subrange(8, 40) =~= reg.token_a@);
    assert(data.subrange(40, 72) =~= reg.token_b@);
    assert(data[72] == reg.fee.spec_tag());
    assert(data[73] == reg.bump);
    assert(data[74] == reg.vault_count);
    let ka = spec_key(data.subrange(8, 40));
    assert(ka@ == reg.token_a@);
    lemma_key_view_injective(ka, reg.token_a);
    let kb = spec_key(data.subrange(40, 72));
    assert(kb@ == reg.token_b@);
    lemma_key_view_injective(kb, reg.token_b);
}

} // verus!
