use tip5_hash::based_check;
use tip5_hash::belt::mont_reduction;
use tip5_hash::belt::montify;
use tip5_hash::Belt;
use tip5_hash::PRIME;
use tip5_hash::tip5::hash::assert_all_based;
use tip5_hash::tip5::hash::create_init_sponge_fixed;
use tip5_hash::tip5::hash::create_init_sponge_variable;
use tip5_hash::tip5::hash::hash_10;
use tip5_hash::tip5::hash::hash_belts;
use tip5_hash::tip5::hash::hash_belts_10;
use tip5_hash::tip5::hash::hash_varlen;
use tip5_hash::tip5::hash::tip5_absorb_input;
use tip5_hash::tip5::hash::tip5_absorb_rate;
use tip5_hash::tip5::hash::tip5_calc_digest;
use tip5_hash::tip5::hash::tip5_calc_q_r;
use tip5_hash::tip5::hash::tip5_montify_vecbelt;
use tip5_hash::tip5::hash::tip5_pad_vecbelt;

const MONT_ONE: u64 = 4294967295;

#[test]
fn determinism_hash_belts() {
    let input = vec![Belt(1), Belt(2), Belt(3)];
    let first = hash_belts(&input);
    let second = hash_belts(&input);
    assert_eq!(first, second);
}

#[test]
fn determinism_hash_belts_10() {
    let input = [
        Belt(0),
        Belt(1),
        Belt(2),
        Belt(3),
        Belt(4),
        Belt(5),
        Belt(6),
        Belt(7),
        Belt(8),
        Belt(9),
    ];
    let first = hash_belts_10(&input);
    let second = hash_belts_10(&input);
    assert_eq!(first, second);
}

#[test]
fn determinism_absorb_rate() {
    let block = vec![Belt(11); 10];
    let mut first = create_init_sponge_fixed();
    let mut second = create_init_sponge_fixed();
    tip5_absorb_rate(&mut first, block.as_slice());
    tip5_absorb_rate(&mut second, block.as_slice());
    assert_eq!(first, second);
}

#[test]
fn hash_belts_leaves_input_unchanged() {
    let input = vec![Belt(7), Belt(8), Belt(9), Belt(10)];
    let copy = input.clone();
    let _ = hash_belts(&input);
    assert_eq!(input, copy);
}

#[test]
fn hash_varlen_rewrites_owned_buffer() {
    let mut buffer = vec![Belt(2); 10];
    let _ = hash_varlen(&mut buffer);
    assert_eq!(buffer.len(), 20);
    assert_eq!(buffer[0], Belt(montify(2)));
    assert_eq!(buffer[10], Belt(MONT_ONE));
    for i in 11..20 {
        assert_eq!(buffer[i], Belt(0));
    }
}

#[test]
fn pad_length_9_appends_only_marker() {
    let mut buffer: Vec<Belt> = (0..9).map(Belt).collect();
    let (q, r) = tip5_calc_q_r(&buffer);
    assert_eq!((q, r), (0, 9));
    tip5_pad_vecbelt(&mut buffer, r);
    assert_eq!(buffer.len(), 10);
    for i in 0..9 {
        assert_eq!(buffer[i], Belt(i as u64));
    }
    assert_eq!(buffer[9], Belt(1));
}

#[test]
fn pad_length_10_appends_full_block() {
    let mut buffer: Vec<Belt> = (0..10).map(Belt).collect();
    let (q, r) = tip5_calc_q_r(&buffer);
    assert_eq!((q, r), (1, 0));
    tip5_pad_vecbelt(&mut buffer, r);
    assert_eq!(buffer.len(), 20);
    for i in 0..10 {
        assert_eq!(buffer[i], Belt(i as u64));
    }
    assert_eq!(buffer[10], Belt(1));
    for i in 11..20 {
        assert_eq!(buffer[i], Belt(0));
    }
}

#[test]
fn pad_empty_input_is_one_block() {
    let mut buffer: Vec<Belt> = Vec::new();
    let (q, r) = tip5_calc_q_r(&buffer);
    assert_eq!((q, r), (0, 0));
    tip5_pad_vecbelt(&mut buffer, r);
    let mut expected = vec![Belt(1)];
    expected.extend(vec![Belt(0); 9]);
    assert_eq!(buffer, expected);
}

#[test]
fn empty_input_digest_anchor() {
    let first = hash_belts(&[]);
    let second = hash_belts(&[]);
    assert_eq!(first, second);
    // If the permutation handed its state back unchanged, this digest would
    // be [1, 0, 0, 0, 0]; the recorded anchor shows it does not.
    assert_ne!(first, [1, 0, 0, 0, 0]);
    assert_eq!(
        first,
        [
            2335476311349343808,
            1307299401243390569,
            3414029282375928929,
            2141465175172981451,
            5966553798353564426,
        ]
    );
}

#[test]
fn domain_separation_between_modes() {
    let input = [Belt(0); 10];
    let fixed_digest = hash_belts_10(&input);
    let variable_digest = hash_belts(&input[..]);
    assert_ne!(fixed_digest, variable_digest);
}

#[test]
fn digest_words_are_canonical() {
    let variable_digest = hash_belts(&[Belt(123), Belt(456)]);
    for word in variable_digest {
        assert!(based_check(word));
    }
    let fixed_digest = hash_belts_10(&[Belt(PRIME - 1); 10]);
    for word in fixed_digest {
        assert!(based_check(word));
    }
}

#[test]
fn calc_q_r_fixed_mode_guard_lengths() {
    // The fixed mode demands exactly one full block: (q, r) == (1, 0).
    // Lengths 0, 9 and 11 all miss that shape.
    assert_eq!(tip5_calc_q_r(&vec![Belt(0); 0]), (0, 0));
    assert_eq!(tip5_calc_q_r(&vec![Belt(0); 9]), (0, 9));
    assert_eq!(tip5_calc_q_r(&vec![Belt(0); 10]), (1, 0));
    assert_eq!(tip5_calc_q_r(&vec![Belt(0); 11]), (1, 1));
}

#[test]
fn based_check_range() {
    assert!(based_check(0));
    assert!(based_check(PRIME - 1));
    assert!(!based_check(PRIME));
    assert!(!based_check(u64::MAX));
}

#[test]
fn montgomery_round_trip() {
    assert_eq!(montify(0), 0);
    assert_eq!(montify(1), MONT_ONE);
    assert_eq!(mont_reduction(MONT_ONE as u128), 1);
    let x: u64 = 123456789;
    assert_eq!(mont_reduction(montify(x) as u128), x);
}

#[test]
fn montify_vecbelt_rewrites_in_place() {
    let mut buffer = vec![Belt(0), Belt(1), Belt(2)];
    tip5_montify_vecbelt(&mut buffer);
    assert_eq!(buffer, vec![Belt(0), Belt(MONT_ONE), Belt(montify(2))]);
}

#[test]
fn init_sponge_shapes() {
    let variable = create_init_sponge_variable();
    assert_eq!(variable, [0u64; 16]);
    let fixed = create_init_sponge_fixed();
    for i in 0..10 {
        assert_eq!(fixed[i], 0);
    }
    for i in 10..16 {
        assert_eq!(fixed[i], MONT_ONE);
    }
}

#[test]
fn calc_digest_of_initial_state_is_zero() {
    let digest = tip5_calc_digest(&create_init_sponge_variable());
    assert_eq!(digest, [0u64; 5]);
}

#[test]
fn hash_varlen_matches_hash_belts() {
    let input = vec![Belt(5), Belt(6), Belt(7)];
    let via_wrapper = hash_belts(&input);
    let mut owned = input.clone();
    let via_owned = hash_varlen(&mut owned);
    assert_eq!(via_wrapper, via_owned);
}

#[test]
fn hash_10_matches_hash_belts_10() {
    let input = [Belt(3); 10];
    let via_wrapper = hash_belts_10(&input);
    let mut owned = input.to_vec();
    let via_owned = hash_10(&mut owned);
    assert_eq!(via_wrapper, via_owned);
}

#[test]
fn absorb_input_walks_blocks_in_order() {
    // Absorbing two blocks one call at a time must agree with absorbing the
    // whole buffer at once, and must leave the buffer unchanged.
    let mut buffer: Vec<Belt> = (0..20).map(Belt).collect();
    let copy = buffer.clone();
    let mut whole = create_init_sponge_variable();
    tip5_absorb_input(&mut buffer, &mut whole, 1);
    assert_eq!(buffer, copy);

    let mut stepped = create_init_sponge_variable();
    tip5_absorb_rate(&mut stepped, &buffer.as_slice()[0..10]);
    tip5_absorb_rate(&mut stepped, &buffer.as_slice()[10..20]);
    assert_eq!(whole, stepped);
}

#[test]
fn assert_all_based_accepts_canonical_input() {
    let input = vec![Belt(0), Belt(1), Belt(PRIME - 1)];
    assert_all_based(&input);
}
