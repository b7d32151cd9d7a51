use frost_keys::error::FrostError;
use frost_keys::keygen::{agreed_group_key, check_parameters, generate_keys, FrostKeys};
use frost_keys::signing::{
    aggregation_error, check_signers, sign_message, signature_array, validate_signature,
};

const CONTEXT: &[u8] = b"THRESHOLD SIGNING CONTEXT";

fn keys(t: u32, n: u32) -> FrostKeys {
    match generate_keys(t, n) {
        Ok(k) => k,
        Err(e) => panic!("key generation failed: {:?}", e),
    }
}

#[test]
fn scenario_two_of_three_signs_and_verifies() {
    let k = keys(2, 3);
    let sig = sign_message(b"hello", vec![1, 2], 3, &k, CONTEXT).unwrap();
    assert_eq!(validate_signature(b"hello", k.group_key_bytes(), &sig.to_vec(), CONTEXT), Ok(()));
}

#[test]
fn scenario_one_signer_is_insufficient() {
    let k = keys(2, 3);
    let r = sign_message(b"hello", vec![1], 3, &k, CONTEXT);
    assert_eq!(r, Err(FrostError::InsufficientSigners(1, 2)));
}

#[test]
fn scenario_other_message_fails() {
    let k = keys(2, 3);
    let sig = sign_message(b"hello", vec![1, 2], 3, &k, CONTEXT).unwrap();
    assert_eq!(
        validate_signature(b"hellp", k.group_key_bytes(), &sig.to_vec(), CONTEXT),
        Err(FrostError::SignatureVerificationFailed)
    );
}

#[test]
fn scenario_threshold_above_participants() {
    assert!(matches!(generate_keys(3, 2), Err(FrostError::ThresholdExceedsParticipants)));
}

#[test]
fn zero_threshold_is_rejected() {
    assert!(matches!(generate_keys(0, 3), Err(FrostError::ZeroThreshold)));
    assert!(matches!(generate_keys(0, 0), Err(FrostError::ZeroThreshold)));
    assert!(matches!(generate_keys(1, 0), Err(FrostError::ThresholdExceedsParticipants)));
}

#[test]
fn key_generation_records_parameters_and_indices() {
    for (t, n) in [(1u32, 1u32), (1, 2), (2, 2), (2, 4), (3, 5)] {
        let k = keys(t, n);
        assert_eq!(k.threshold(), t);
        assert_eq!(k.participants(), n);
        assert_eq!(k.private_shares.len(), n as usize);
        for (j, (_, index)) in k.private_shares.iter().enumerate() {
            assert_eq!(*index, j as u32 + 1);
        }
    }
}

#[test]
fn every_threshold_subset_signs() {
    let k = keys(3, 5);
    let subsets: Vec<Vec<u32>> = vec![
        vec![1, 2, 3],
        vec![3, 4, 5],
        vec![5, 1, 3],
        vec![2, 4, 5, 1],
        vec![1, 2, 3, 4, 5],
    ];
    for s in subsets {
        let sig = sign_message(b"threshold", s, 5, &k, CONTEXT).unwrap();
        assert_eq!(validate_signature(b"threshold", k.group_key_bytes(), &sig.to_vec(), CONTEXT), Ok(()));
    }
}

#[test]
fn subsets_below_threshold_are_rejected() {
    let k = keys(3, 5);
    assert_eq!(sign_message(b"m", vec![1, 2], 5, &k, CONTEXT), Err(FrostError::InsufficientSigners(2, 3)));
    assert_eq!(sign_message(b"m", vec![], 5, &k, CONTEXT), Err(FrostError::InsufficientSigners(0, 3)));
}

#[test]
fn different_signer_sets_verify_under_one_key() {
    let k = keys(2, 4);
    let a = sign_message(b"same message", vec![1, 2], 4, &k, CONTEXT).unwrap();
    let b = sign_message(b"same message", vec![3, 4], 4, &k, CONTEXT).unwrap();
    assert_eq!(validate_signature(b"same message", k.group_key_bytes(), &a.to_vec(), CONTEXT), Ok(()));
    assert_eq!(validate_signature(b"same message", k.group_key_bytes(), &b.to_vec(), CONTEXT), Ok(()));
}

#[test]
fn verification_is_repeatable() {
    let k = keys(2, 3);
    let sig = sign_message(b"again", vec![2, 3], 3, &k, CONTEXT).unwrap();
    let first = validate_signature(b"again", k.group_key_bytes(), &sig.to_vec(), CONTEXT);
    let second = validate_signature(b"again", k.group_key_bytes(), &sig.to_vec(), CONTEXT);
    assert_eq!(first, Ok(()));
    assert_eq!(first, second);
}

#[test]
fn every_single_bit_flip_fails() {
    let k = keys(2, 3);
    let sig = sign_message(b"flip", vec![1, 3], 3, &k, CONTEXT).unwrap();
    for bit in 0..512usize {
        let mut bad = sig.to_vec();
        bad[bit / 8] ^= 1u8 << (bit % 8);
        assert!(validate_signature(b"flip", k.group_key_bytes(), &bad, CONTEXT).is_err(), "bit {}", bit);
    }
}

#[test]
fn context_separates_signatures() {
    let k = keys(2, 3);
    let sig = sign_message(b"hello", vec![1, 2], 3, &k, CONTEXT).unwrap();
    assert_eq!(
        validate_signature(b"hello", k.group_key_bytes(), &sig.to_vec(), b"ANOTHER CONTEXT"),
        Err(FrostError::SignatureVerificationFailed)
    );
}

#[test]
fn signatures_of_one_message_differ_between_sessions() {
    let k = keys(2, 3);
    let a = sign_message(b"nonce", vec![1, 2], 3, &k, CONTEXT).unwrap();
    let b = sign_message(b"nonce", vec![1, 2], 3, &k, CONTEXT).unwrap();
    assert_ne!(a.to_vec(), b.to_vec());
}

#[test]
fn signature_under_other_keys_fails() {
    let k = keys(2, 3);
    let other = keys(2, 3);
    let sig = sign_message(b"hello", vec![1, 2], 3, &k, CONTEXT).unwrap();
    assert_eq!(
        validate_signature(b"hello", other.group_key_bytes(), &sig.to_vec(), CONTEXT),
        Err(FrostError::SignatureVerificationFailed)
    );
}

#[test]
fn duplicate_and_unknown_signers_are_rejected() {
    let k = keys(2, 3);
    assert_eq!(sign_message(b"m", vec![1, 1], 3, &k, CONTEXT), Err(FrostError::DuplicateSigner(1)));
    assert_eq!(sign_message(b"m", vec![0, 1], 3, &k, CONTEXT), Err(FrostError::UnknownSignerIndex(0)));
    assert_eq!(sign_message(b"m", vec![1, 4], 3, &k, CONTEXT), Err(FrostError::UnknownSignerIndex(4)));
}

#[test]
fn participant_count_must_match_keys() {
    let k = keys(2, 3);
    assert_eq!(sign_message(b"m", vec![1, 2], 4, &k, CONTEXT), Err(FrostError::MalformedKeyMaterial));
}

#[test]
fn signature_length_is_checked() {
    let k = keys(1, 1);
    assert_eq!(
        validate_signature(b"m", k.group_key_bytes(), &vec![0u8; 63], CONTEXT),
        Err(FrostError::MalformedSignatureEncoding(64, 63))
    );
    assert_eq!(signature_array(&vec![7u8; 65]), Err(FrostError::MalformedSignatureEncoding(64, 65)));
    let bytes: Vec<u8> = (0..64u8).collect();
    assert_eq!(signature_array(&bytes).unwrap().to_vec(), bytes);
}

#[test]
fn undecodable_group_key_is_malformed() {
    let k = keys(1, 1);
    let sig = sign_message(b"solo", vec![1], 1, &k, CONTEXT).unwrap();
    assert_eq!(validate_signature(b"solo", k.group_key_bytes(), &sig.to_vec(), CONTEXT), Ok(()));
    assert_eq!(
        validate_signature(b"solo", [0xffu8; 32], &sig.to_vec(), CONTEXT),
        Err(FrostError::MalformedKeyMaterial)
    );
}

#[test]
fn parameter_check_values() {
    assert_eq!(check_parameters(1, 1), Ok(()));
    assert_eq!(check_parameters(2, 3), Ok(()));
    assert_eq!(check_parameters(4, 3), Err(FrostError::ThresholdExceedsParticipants));
    assert_eq!(check_parameters(0, 3), Err(FrostError::ZeroThreshold));
}

#[test]
fn signer_check_reports_first_fault() {
    assert_eq!(check_signers(&vec![1, 2, 3], 2, 3), Ok(()));
    assert_eq!(check_signers(&vec![2], 2, 3), Err(FrostError::InsufficientSigners(1, 2)));
    assert_eq!(check_signers(&vec![2, 5, 2], 2, 3), Err(FrostError::UnknownSignerIndex(5)));
    assert_eq!(check_signers(&vec![2, 3, 2, 9], 2, 3), Err(FrostError::DuplicateSigner(2)));
}

#[test]
fn agreed_group_key_needs_all_equal() {
    assert_eq!(agreed_group_key(&vec![[3u8; 32], [3u8; 32], [3u8; 32]]), Ok([3u8; 32]));
    let mut odd = [3u8; 32];
    odd[31] = 4;
    assert_eq!(agreed_group_key(&vec![[3u8; 32], [3u8; 32], odd]), Err(FrostError::GroupKeyMismatch));
    assert_eq!(agreed_group_key(&vec![odd]), Ok(odd));
}

#[test]
fn undecodable_signature_is_malformed() {
    let k = keys(2, 3);
    assert_eq!(
        validate_signature(b"hello", k.group_key_bytes(), &vec![0xffu8; 64], CONTEXT),
        Err(FrostError::MalformedSignatureEncoding(64, 64))
    );
    let sig = sign_message(b"hello", vec![1, 2], 3, &k, CONTEXT).unwrap();
    let mut bad = sig.to_vec();
    for b in bad[32..].iter_mut() {
        *b = 0xff;
    }
    assert_eq!(
        validate_signature(b"hello", k.group_key_bytes(), &bad, CONTEXT),
        Err(FrostError::MalformedSignatureEncoding(64, 64))
    );
}

#[test]
fn aggregation_error_names_a_signer() {
    assert_eq!(aggregation_error(&vec![7, 2, 3], &vec![1, 2, 3]), FrostError::PartialSignatureInvalid(2));
    assert_eq!(aggregation_error(&vec![3], &vec![1, 3]), FrostError::PartialSignatureInvalid(3));
    assert_eq!(aggregation_error(&vec![0, 9], &vec![1, 2]), FrostError::AggregationFailed);
    assert_eq!(aggregation_error(&vec![], &vec![1, 2]), FrostError::AggregationFailed);
}
