use kitties::{mix_genomes, random_value};

#[test]
fn random_value_matches_blake2_of_encoded_payload() {
    let expected: [u8; 16] = [203, 72, 224, 182, 212, 228, 215, 133, 120, 11, 106, 156, 2, 170, 100, 74];
    assert_eq!(random_value(&[7u8; 32], 1, None), expected);
    let zero: [u8; 16] = [203, 196, 164, 177, 232, 177, 125, 51, 187, 110, 161, 156, 235, 158, 148, 34];
    assert_eq!(random_value(&[0u8; 32], 0, None), zero);
}

#[test]
fn random_value_differs_by_call_index_and_caller() {
    let seed = [3u8; 32];
    assert_ne!(random_value(&seed, 1, Some(0)), random_value(&seed, 1, Some(1)));
    assert_ne!(random_value(&seed, 1, Some(0)), random_value(&seed, 2, Some(0)));
    assert_ne!(random_value(&seed, 1, None), random_value(&seed, 1, Some(0)));
}

#[test]
fn mix_takes_bits_by_selector() {
    let out = mix_genomes(&[0xF0u8; 16], &[0xAAu8; 16], &[0x55u8; 16]);
    assert_eq!(out, [0xA5u8; 16]);
    let all_a = mix_genomes(&[0xFFu8; 16], &[1u8; 16], &[2u8; 16]);
    assert_eq!(all_a, [1u8; 16]);
    let all_b = mix_genomes(&[0u8; 16], &[1u8; 16], &[2u8; 16]);
    assert_eq!(all_b, [2u8; 16]);
}
