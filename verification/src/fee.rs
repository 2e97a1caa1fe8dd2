use vstd::prelude::*;

verus! {

/// Fee tier of a vault registry. Each tier has a normal fee and a
/// discounted fee, both in basis points.
#[derive(Clone, Copy, Debug, PartialEq, Eq, Structural)]
pub enum FeeOption {
    Tier30,
    Tier25,
    Tier20,
}

/// The fee values (in basis points) that name a tier.
pub open spec fn is_tier_fee(fee: u64) -> bool {
    fee == 30 || fee == 25 || fee == 20
}

impl FeeOption {
    /// Normal and discounted fee of the tier, in basis points.
    pub open spec fn spec_fees(self) -> (u64, u64) {
        match self {
            FeeOption::Tier30 => (30, 25),
            FeeOption::Tier25 => (25, 21),
            FeeOption::Tier20 => (20, 16),
        }
    }

    /// The byte that tags the tier in the registry's instruction data and
    /// account data.
    pub open spec fn spec_tag(self) -> u8 {
        match self {
            FeeOption::Tier30 => 0,
            FeeOption::Tier25 => 1,
            FeeOption::Tier20 => 2,
        }
    }

    /// The tier that a tag byte names: tags 0, 1 and 2 name the tiers of
    /// 30, 25 and 20 basis points.
    pub open spec fn spec_from_tag(tag: u8) -> Option<FeeOption> {
        if tag == 0 {
            Some(FeeOption::Tier30)
        } else if tag == 1 {
            Some(FeeOption::Tier25)
        } else if tag == 2 {
            Some(FeeOption::Tier20)
        } else {
            None
        }
    }

    /// The tier whose normal fee is `fee` basis points.
    pub fn new(fee: u64) -> (r: FeeOption)
        requires
            is_tier_fee(fee),
        ensures
            r.spec_fees().0 == fee,
    {
        match fee {
            30 => FeeOption::Tier30,
            25 => FeeOption::Tier25,
            _ => FeeOption::Tier20,
        }
    }

    /// Normal and discounted fee in basis points.
    pub fn fees(&self) -> (r: (u64, u64))
        ensures
            r == self.spec_fees(),
    {
        match self {
            FeeOption::Tier30 => (30, 25),
            FeeOption::Tier25 => (25, 21),
            FeeOption::Tier20 => (20, 16),
        }
    }

    /// Normal fee in basis points.
    pub fn normal(&self) -> (r: u64)
        ensures
            r == self.spec_fees().0,
    {
        self.fees().0
    }

    /// Discounted fee in basis points.
    pub fn discount(&self) -> (r: u64)
        ensures
            r == self.spec_fees().1,
    {
        self.fees().1
    }

    /// The tag byte written for this tier.
    pub fn tag(&self) -> (r: u8)
        ensures
            r == self.spec_tag(),
    {
        match self {
            FeeOption::Tier30 => 0,
            FeeOption::Tier25 => 1,
            FeeOption::Tier20 => 2,
        }
    }

    /// The tier that a tag byte names, if any.
    pub fn from_tag(tag: u8) -> (r: Option<FeeOption>)
        ensures
            r == FeeOption::spec_from_tag(tag),
    {
        match tag {
            0 => Some(FeeOption::Tier30),
            1 => Some(FeeOption::Tier25),
            2 => Some(FeeOption::Tier20),
            _ => None,
        }
    }
}

/// Each tier's normal fee names it, its discounted fee is below its normal
/// fee, and decoding its tag gives it back.
pub proof fn lemma_fee_tier_roundtrip(f: FeeOption)
    ensures
        is_tier_fee(f.spec_fees().0),
        f.spec_fees().1 < f.spec_fees().0,
        FeeOption::spec_from_tag(f.spec_tag()) == Some(f),
{
}

/// Distinct tiers have distinct normal fees and distinct tags.
pub proof fn lemma_fee_tier_injective(f: FeeOption, g: FeeOption)
    ensures
        f.spec_fees().0 == g.spec_fees().0 ==> f == g,
        f.spec_tag() == g.spec_tag() ==> f == g,
{
}

} // verus!
