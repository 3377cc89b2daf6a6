//! The sponge pipeline: validation, padding, Montgomery-domain conversion,
//! domain-separated initialization, block absorption, and digest extraction.

use vstd::prelude::*;
use crate::belt::based;
use crate::belt::mont_of;
use crate::belt::mont_red_of;
use crate::belt::mont_reduction;
use crate::belt::montify;
use crate::belt::Belt;
use crate::tip5::DIGEST_LENGTH;
use crate::tip5::MONT_ONE;
use crate::tip5::RATE;
use crate::tip5::STATE_SIZE;

verus! {

/// The raw words of a sequence of field elements.
pub open spec fn words_of(s: Seq<Belt>) -> Seq<u64> {
    s.map_values(|b: Belt| b.0)
}

/// Every element of the sequence is a canonical field element.
pub open spec fn all_based(s: Seq<Belt>) -> bool {
    forall|i: int| 0 <= i < s.len() ==> based(#[trigger] s[i].0)
}

/// The variable-length padding rule: one marker element equal to 1, then
/// zeros up to the next multiple of `RATE`. Never a no-op: an input whose
/// length is already a multiple of `RATE` gains a full extra block.
pub open spec fn pad_of(s: Seq<Belt>) -> Seq<Belt> {
    s + seq![Belt(1)]
        + Seq::new((RATE as int - s.len() as int % (RATE as int) - 1) as nat, |i: int| Belt(0))
}

/// The canonicity assertion of the pipeline, rendered as a precondition:
/// callers must establish statically that every element is canonical, and
/// the hot path then carries no per-call check.
pub fn assert_all_based(vecbelt: &Vec<Belt>)
    requires
        all_based(vecbelt@),
{
}

/// Block count and remainder of the input length with respect to `RATE`.
pub fn tip5_calc_q_r(input_vec: &Vec<Belt>) -> (qr: (usize, usize))
    ensures
        qr.0 == input_vec@.len() as int / RATE as int,
        qr.1 == input_vec@.len() as int % RATE as int,
{
    let lent_input = input_vec.len();
    let (q, r) = (lent_input / RATE, lent_input % RATE);
    (q, r)
}

/// Pad the buffer with `[1, 0, ..., 0]` up to the next multiple of `RATE`,
/// given the remainder `r` of its current length.
pub fn tip5_pad_vecbelt(input_vec: &mut Vec<Belt>, r: usize)
    requires
        r == old(input_vec)@.len() as int % RATE as int,
        old(input_vec)@.len() + RATE <= usize::MAX,
    ensures
        final(input_vec)@ == pad_of(old(input_vec)@),
        final(input_vec)@.len() == old(input_vec)@.len() + RATE - r,
        final(input_vec)@.len() as int % RATE as int == 0,
{
    input_vec.push(Belt(1));
    let fill = RATE - r - 1;
    let mut i: usize = 0;
    while i < fill
        invariant
            i <= fill,
            fill == RATE - r - 1,
            input_vec@ == old(input_vec)@ + seq![Belt(1)] + Seq::new(i as nat, |j: int| Belt(0)),
        decreases fill - i,
    {
        input_vec.push(Belt(0));
        proof {
            assert(input_vec@ =~= old(input_vec)@ + seq![Belt(1)]
                + Seq::new((i + 1) as nat, |j: int| Belt(0)));
        }
        i += 1;
    }
    proof {
        assert(input_vec@ =~= pad_of(old(input_vec)@));
        vstd::arithmetic::div_mod::lemma_fundamental_div_mod(
            old(input_vec)@.len() as int,
            RATE as int,
        );
    }
}

/// Law: padded length and contents at the block boundary. An input one
/// element short of a full block gains only the single marker element; an
/// input whose length is already a multiple of `RATE` (the empty input
/// included) gains a full extra block `[1, 0, ..., 0]`. Every padded length
/// is the next strictly larger multiple of `RATE`.
pub proof fn lemma_pad_boundary(s: Seq<Belt>)
    ensures
        pad_of(s).len() == s.len() + RATE - s.len() as int % (RATE as int),
        pad_of(s).len() as int % (RATE as int) == 0,
        s.len() as int % (RATE as int) == RATE - 1 ==> pad_of(s) == s + seq![Belt(1)],
        s.len() as int % (RATE as int) == 0 ==> pad_of(s) == s + seq![Belt(1)]
            + Seq::new((RATE - 1) as nat, |i: int| Belt(0)),
{
    let r = s.len() as int % (RATE as int);
    vstd::arithmetic::div_mod::lemma_fundamental_div_mod(s.len() as int, RATE as int);
    let q = s.len() as int / RATE as int;
    assert(pad_of(s).len() == (q + 1) * RATE) by (nonlinear_arith)
        requires
            pad_of(s).len() == s.len() + RATE - r,
            s.len() == RATE * q + r,
            RATE == 10,
    ;
    vstd::arithmetic::div_mod::lemma_mod_multiples_basic(q + 1, RATE as int);
    if r == RATE - 1 {
        assert(pad_of(s) =~= s + seq![Belt(1)]);
    }
    if r == 0 {
        assert(pad_of(s) =~= s + seq![Belt(1)] + Seq::new((RATE - 1) as nat, |i: int| Belt(0)));
    }
}

/// Law: the padding map is injective across all input lengths. Two inputs
/// that pad to the same buffer are the same input: the marker element stands
/// at the input's own length, and only zeros follow it, so the input can be
/// recovered from its padded form.
pub proof fn lemma_pad_injective(a: Seq<Belt>, b: Seq<Belt>)
    requires
        pad_of(a) == pad_of(b),
    ensures
        a == b,
{
    let la = a.len() as int;
    let lb = b.len() as int;
    if la == lb {
        assert forall|i: int| 0 <= i < la implies a[i] == b[i] by {
            assert(pad_of(a)[i] == a[i]);
            assert(pad_of(b)[i] == b[i]);
        }
        assert(a =~= b);
    } else if la < lb {
        assert(pad_of(b).len() > lb);
        assert(pad_of(a)[lb] == Belt(0));
        assert(pad_of(b)[lb] == Belt(1));
    } else {
        assert(pad_of(a).len() > la);
        assert(pad_of(b)[la] == Belt(0));
        assert(pad_of(a)[la] == Belt(1));
    }
}

/// The Montgomery-domain image of each element of the sequence.
pub open spec fn mont_all(s: Seq<Belt>) -> Seq<Belt> {
    s.map_values(|b: Belt| Belt(mont_of(b.0)))
}

/// Rewrite every element of the buffer in place into its Montgomery-domain
/// representation.
pub fn tip5_montify_vecbelt(input_vec: &mut Vec<Belt>)
    ensures
        final(input_vec)@ == mont_all(old(input_vec)@),
        final(input_vec)@.len() == old(input_vec)@.len(),
{
    let n = input_vec.len();
    let mut i: usize = 0;
    while i < n
        invariant
            i <= n,
            input_vec@.len() == n,
            n == old(input_vec)@.len(),
            forall|j: int| i <= j < n ==> input_vec@[j] == old(input_vec)@[j],
            forall|j: int| 0 <= j < i ==> input_vec@[j] == Belt(mont_of(#[trigger] old(input_vec)@[j].0)),
        decreases n - i,
    {
        input_vec[i] = Belt(montify(input_vec[i].0));
        i += 1;
    }
    proof {
        assert(input_vec@ =~= mont_all(old(input_vec)@));
    }
}

/// The all-zero initial state of the variable-length mode; its zero capacity
/// region is that mode's domain tag.
pub open spec fn variable_init() -> Seq<u64> {
    Seq::new(STATE_SIZE as nat, |i: int| 0u64)
}

/// The initial state of the fixed 10-element mode: zero rate region, and the
/// capacity region filled with the non-zero domain-separation tag.
pub open spec fn fixed_init() -> Seq<u64> {
    Seq::new(STATE_SIZE as nat, |i: int| if i < RATE { 0u64 } else { MONT_ONE })
}

/// Law: the two modes are domain-separated at initialization. The states the
/// two modes start from agree nowhere in the capacity region — the region
/// absorption never overwrites — so no block sequence can carry one mode's
/// state onto the other's.
pub proof fn lemma_domain_tags_differ()
    ensures
        forall|i: int| RATE <= i < STATE_SIZE ==> variable_init()[i] != #[trigger] fixed_init()[i],
{
}

pub fn create_init_sponge_variable() -> (sponge: [u64; STATE_SIZE])
    ensures
        sponge@ == variable_init(),
{
    let sponge = [0u64; STATE_SIZE];
    proof {
        assert(sponge@ =~= variable_init());
    }
    sponge
}

pub fn create_init_sponge_fixed() -> (sponge: [u64; STATE_SIZE])
    ensures
        sponge@ == fixed_init(),
{
    let sponge = [
        0u64,
        0u64,
        0u64,
        0u64,
        0u64,
        0u64,
        0u64,
        0u64,
        0u64,
        0u64,
        MONT_ONE,
        MONT_ONE,
        MONT_ONE,
        MONT_ONE,
        MONT_ONE,
        MONT_ONE,
    ];
    proof {
        assert(sponge@ =~= fixed_init());
    }
    sponge
}

/// The state after absorbing the first `k` blocks of `RATE` words of `input`
/// into `init`: each block overwrites the rate region, the capacity region
/// carries the previous permutation's output forward, and the permutation is
/// applied to the combined state.
pub open spec fn absorb_upto(init: Seq<u64>, input: Seq<u64>, k: nat) -> Seq<u64>
    decreases k,
{
    if k == 0 {
        init
    } else {
        let prev = absorb_upto(init, input, (k - 1) as nat);
        crate::tip5::permute_of(
            input.subrange(RATE as int * (k - 1), RATE as int * k as int)
                + prev.skip(RATE as int),
        )
    }
}

/// Absorb one block of exactly `RATE` elements: overwrite the rate region of
/// the state with the block's raw words, leave the capacity region as it is,
/// and permute.
pub fn tip5_absorb_rate(sponge: &mut [u64; STATE_SIZE], input: &[Belt])
    requires
        input@.len() == RATE,
    ensures
        final(sponge)@ == crate::tip5::permute_of(
            words_of(input@) + old(sponge)@.skip(RATE as int),
        ),
{
    let mut copy_pos: usize = 0;
    while copy_pos < RATE
        invariant
            copy_pos <= RATE,
            input@.len() == RATE,
            forall|j: int| 0 <= j < copy_pos ==> sponge@[j] == #[trigger] input@[j].0,
            forall|j: int| copy_pos <= j < STATE_SIZE ==> sponge@[j] == #[trigger] old(sponge)@[j],
        decreases RATE - copy_pos,
    {
        sponge[copy_pos] = input[copy_pos].0;
        copy_pos += 1;
    }
    proof {
        assert(sponge@ =~= words_of(input@) + old(sponge)@.skip(RATE as int));
    }
    crate::tip5::permute(sponge);
}

/// Absorb the whole buffer, whose length must be exactly `q + 1` blocks, in
/// order. The buffer itself is left unchanged.
pub fn tip5_absorb_input(input_vec: &mut Vec<Belt>, sponge: &mut [u64; STATE_SIZE], q: usize)
    requires
        old(input_vec)@.len() == (q + 1) * RATE,
    ensures
        final(input_vec)@ == old(input_vec)@,
        final(sponge)@ == absorb_upto(old(sponge)@, words_of(old(input_vec)@), (q + 1) as nat),
{
    let n = input_vec.len();
    proof {
        assert(q + 1 <= n) by (nonlinear_arith)
            requires
                n == (q + 1) * RATE,
                RATE == 10,
        ;
    }
    let blocks = q + 1;
    let mut k: usize = 0;
    while k < blocks
        invariant
            k <= blocks,
            blocks == q + 1,
            input_vec@ == old(input_vec)@,
            input_vec@.len() == n,
            n == blocks * RATE,
            sponge@ == absorb_upto(old(sponge)@, words_of(input_vec@), k as nat),
        decreases blocks - k,
    {
        proof {
            assert((k + 1) * RATE <= blocks * RATE) by (nonlinear_arith)
                requires
                    k < blocks,
                    RATE == 10,
            ;
            assert(k * RATE < (k + 1) * RATE) by (nonlinear_arith)
                requires
                    RATE == 10,
            ;
        }
        let start = k * RATE;
        let block = vstd::slice::slice_subrange(input_vec.as_slice(), start, start + RATE);
        tip5_absorb_rate(sponge, block);
        proof {
            assert(words_of(block@) =~= words_of(input_vec@).subrange(
                RATE as int * k as int,
                RATE as int * (k + 1),
            ));
            assert(sponge@ == absorb_upto(old(sponge)@, words_of(input_vec@), (k + 1) as nat));
        }
        k += 1;
    }
}

/// The digest read out of a final state: the first `DIGEST_LENGTH` words,
/// each reduced out of the Montgomery domain.
pub open spec fn digest_of(state: Seq<u64>) -> Seq<u64> {
    Seq::new(DIGEST_LENGTH as nat, |i: int| mont_red_of(state[i] as u128))
}

/// Extract the digest from the final sponge state. Every digest word is a
/// canonical field element.
pub fn tip5_calc_digest(sponge: &[u64; STATE_SIZE]) -> (digest: [u64; DIGEST_LENGTH])
    ensures
        digest@ == digest_of(sponge@),
        forall|i: int| 0 <= i < DIGEST_LENGTH ==> based(#[trigger] digest@[i]),
{
    let mut digest = [0u64; DIGEST_LENGTH];
    let mut i: usize = 0;
    while i < DIGEST_LENGTH
        invariant
            i <= DIGEST_LENGTH,
            forall|j: int| 0 <= j < i ==> digest@[j] == mont_red_of(#[trigger] sponge@[j] as u128),
            forall|j: int| 0 <= j < i ==> based(#[trigger] digest@[j]),
        decreases DIGEST_LENGTH - i,
    {
        digest[i] = mont_reduction(sponge[i] as u128);
        i += 1;
    }
    proof {
        assert(digest@ =~= digest_of(sponge@));
    }
    digest
}

/// The digest of the variable-length mode: the input is padded, converted
/// into the Montgomery domain, absorbed block by block into the all-zero
/// state, and the digest is read out.
pub open spec fn hash_varlen_of(input: Seq<Belt>) -> Seq<u64> {
    let padded = pad_of(input);
    digest_of(
        absorb_upto(variable_init(), words_of(mont_all(padded)), padded.len() / (RATE as nat)),
    )
}

/// The digest of the fixed 10-element mode: no padding, the domain-tagged
/// initial state, and exactly one absorbed block.
pub open spec fn hash_10_of(input: Seq<Belt>) -> Seq<u64> {
    digest_of(absorb_upto(fixed_init(), words_of(mont_all(input)), 1))
}

/// Variable-length hashing over an owned buffer. The buffer is consumed as a
/// workspace: on return it holds the Montgomery-domain image of the padded
/// input.
pub fn hash_varlen(input_vec: &mut Vec<Belt>) -> (digest: [u64; DIGEST_LENGTH])
    requires
        all_based(old(input_vec)@),
        old(input_vec)@.len() + RATE <= usize::MAX,
    ensures
        digest@ == hash_varlen_of(old(input_vec)@),
        final(input_vec)@ == mont_all(pad_of(old(input_vec)@)),
        forall|i: int| 0 <= i < DIGEST_LENGTH ==> based(#[trigger] digest@[i]),
{
    let mut sponge = create_init_sponge_variable();

    assert_all_based(input_vec);

    let (q, r) = tip5_calc_q_r(input_vec);
    tip5_pad_vecbelt(input_vec, r);
    proof {
        vstd::arithmetic::div_mod::lemma_fundamental_div_mod(
            old(input_vec)@.len() as int,
            RATE as int,
        );
        assert(input_vec@.len() == (q + 1) * RATE);
        let padded_len = pad_of(old(input_vec)@).len() as int;
        assert(padded_len / RATE as int == q + 1) by (nonlinear_arith)
            requires
                padded_len == (q + 1) * RATE,
                RATE == 10,
        ;
    }

    tip5_montify_vecbelt(input_vec);

    tip5_absorb_input(input_vec, &mut sponge, q);

    tip5_calc_digest(&sponge)
}

/// Fixed-mode hashing of exactly `RATE` elements over an owned buffer. The
/// buffer is consumed as a workspace: on return it holds the
/// Montgomery-domain image of the input.
pub fn hash_10(input_vec: &mut Vec<Belt>) -> (digest: [u64; DIGEST_LENGTH])
    requires
        old(input_vec)@.len() == RATE,
        all_based(old(input_vec)@),
    ensures
        digest@ == hash_10_of(old(input_vec)@),
        final(input_vec)@ == mont_all(old(input_vec)@),
        forall|i: int| 0 <= i < DIGEST_LENGTH ==> based(#[trigger] digest@[i]),
{
    let (q, r) = tip5_calc_q_r(input_vec);
    assert(q == 1);
    assert(r == 0);
    assert_all_based(input_vec);

    tip5_montify_vecbelt(input_vec);

    let mut sponge = create_init_sponge_fixed();

    tip5_absorb_rate(&mut sponge, input_vec.as_slice());
    proof {
        let words = words_of(mont_all(old(input_vec)@));
        assert(words.subrange(0, RATE as int) =~= words);
        assert(absorb_upto(fixed_init(), words, 0) == fixed_init());
        assert(sponge@ == absorb_upto(fixed_init(), words, 1));
    }

    tip5_calc_digest(&sponge)
}

/// Hash a borrowed sequence of elements in the variable-length mode. The
/// caller's sequence is copied first and never observed to change.
pub fn hash_belts(input: &[Belt]) -> (digest: [u64; DIGEST_LENGTH])
    requires
        all_based(input@),
        input@.len() + RATE <= usize::MAX,
    ensures
        digest@ == hash_varlen_of(input@),
        forall|i: int| 0 <= i < DIGEST_LENGTH ==> based(#[trigger] digest@[i]),
{
    let mut belts = vstd::slice::slice_to_vec(input);
    hash_varlen(&mut belts)
}

/// Hash a borrowed array of exactly `RATE` elements in the fixed mode. The
/// caller's array is copied first and never observed to change.
pub fn hash_belts_10(input: &[Belt; RATE]) -> (digest: [u64; DIGEST_LENGTH])
    requires
        all_based(input@),
    ensures
        digest@ == hash_10_of(input@),
        forall|i: int| 0 <= i < DIGEST_LENGTH ==> based(#[trigger] digest@[i]),
{
    let mut belts = vstd::slice::slice_to_vec(input.as_slice());
    hash_10(&mut belts)
}

} // verus!
