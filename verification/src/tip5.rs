//! The sponge layer: state geometry constants, the permutation call, and the
//! hash pipeline itself (in `hash`).

use vstd::prelude::*;

pub mod hash;

verus! {

/// Words of the state that each input block overwrites and that digests are
/// read from.
pub const RATE: usize = 10;

/// Total words of the sponge state; the last `STATE_SIZE - RATE` words are
/// the capacity region.
pub const STATE_SIZE: usize = 16;

/// Words of a digest.
pub const DIGEST_LENGTH: usize = 5;

/// `1` in the Montgomery domain (`2^64 mod PRIME`). The fixed-length mode
/// fills its capacity region with this value as its domain-separation tag.
pub const MONT_ONE: u64 = 4294967295;

/// What the permutation returns for a given 16-word state. The permutation
/// is a fixed, keyless, deterministic function of the state words alone; its
/// round structure is an external concern and is not restated here.
pub uninterp spec fn permute_of(state: Seq<u64>) -> Seq<u64>;

/// Relies on `twenty_first::tip5::Tip5::permutation`: the fixed Tip5
/// permutation of the 16-word sponge state, a deterministic function of the
/// state words alone. `BFieldElement::from_raw_u64` and `raw_u64` are
/// identities on the raw Montgomery-domain word, so the state round-trips
/// through `BFieldElement` unchanged but for the permutation itself.
#[verifier::external_body]
pub(crate) fn permute(sponge: &mut [u64; STATE_SIZE])
    ensures
        final(sponge)@ == permute_of(old(sponge)@),
{
    let mut tip5 = twenty_first::tip5::Tip5 {
        state: sponge.map(twenty_first::prelude::BFieldElement::from_raw_u64),
    };
    tip5.permutation();
    *sponge = tip5.state.map(|b| b.raw_u64());
}

} // verus!
