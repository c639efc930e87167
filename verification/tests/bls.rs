//! End-to-end exercises of the boundary operations against the real
//! primitives library.

use bls_agg::aggregate;
use bls_agg::bls_pk;
use bls_agg::bls_sig;
use bls_agg::bls_sk;
use bls_agg::keygen;
use bls_agg::sign;
use bls_agg::verify;
use bls_agg::verify_aggregated;
use bls_agg::BlsError;
use bls_agg::PK_LEN;
use bls_agg::SIG_LEN;
use bls_agg::SK_LEN;

/// A 32-byte seed filled with one value.
fn seed32(fill: u8) -> Vec<u8> {
    vec![fill; 32]
}

/// A seed of 32 zero bytes plus one distinct trailing byte.
fn seed_trailing(tail: u8) -> Vec<u8> {
    let mut s = vec![0u8; 32];
    s.push(tail);
    s
}

fn keypair(seed: &[u8], cs: u8) -> (bls_pk, bls_sk) {
    let keys = keygen(seed, cs).expect("keygen must accept this seed");
    (keys.pk().clone(), keys.sk().clone())
}

#[test]
fn keygen_is_deterministic() {
    let seed = seed32(7);
    let a = keygen(&seed, 1).unwrap();
    let b = keygen(&seed, 1).unwrap();
    assert_eq!(a.sk().to_bytes(), b.sk().to_bytes());
    assert_eq!(a.pk().to_bytes(), b.pk().to_bytes());
    assert_eq!(a.sk().to_bytes().len(), SK_LEN);
    assert_eq!(a.pk().to_bytes().len(), PK_LEN);
}

#[test]
fn keygen_derives_rather_than_copies() {
    let seed = seed32(9);
    let keys = keygen(&seed, 0).unwrap();
    assert_ne!(keys.sk().to_bytes(), seed);
}

#[test]
fn keygen_rejects_short_seed() {
    let short = vec![0u8; 31];
    assert_eq!(keygen(&short, 1).unwrap_err(), BlsError::SeedTooShort);
    let empty: Vec<u8> = vec![];
    assert_eq!(keygen(&empty, 0).unwrap_err(), BlsError::SeedTooShort);
}

#[test]
fn keygen_rejects_unknown_ciphersuite() {
    let seed = seed32(1);
    assert_eq!(keygen(&seed, 2).unwrap_err(), BlsError::UnknownCiphersuite);
    assert_eq!(keygen(&seed, 0xff).unwrap_err(), BlsError::UnknownCiphersuite);
}

#[test]
fn sign_then_verify_accepts() {
    let (pk, sk) = keypair(&seed32(3), 1);
    let msg = b"a message of no particular length";
    let sig = sign(&sk, msg).unwrap();
    assert_eq!(sig.to_bytes().len(), SIG_LEN);
    assert_eq!(verify(&pk, msg, &sig), Ok(true));
}

#[test]
fn verify_rejects_mismatched_message() {
    let (pk, sk) = keypair(&seed32(3), 1);
    let sig = sign(&sk, b"first message").unwrap();
    assert_eq!(verify(&pk, b"second message", &sig), Ok(false));
}

#[test]
fn verify_rejects_mismatched_key() {
    let (_pk1, sk1) = keypair(&seed32(3), 1);
    let (pk2, _sk2) = keypair(&seed32(4), 1);
    let sig = sign(&sk1, b"hello").unwrap();
    assert_eq!(verify(&pk2, b"hello", &sig), Ok(false));
}

#[test]
fn flipped_signature_byte_never_verifies() {
    let (pk, sk) = keypair(&seed32(5), 0);
    let msg = b"flip test";
    let good = sign(&sk, msg).unwrap().to_bytes();
    for i in 0..good.len() {
        let mut bad = good.clone();
        bad[i] ^= 0xff;
        let sig = bls_sig::from_bytes(&bad).unwrap();
        match verify(&pk, msg, &sig) {
            Ok(accepted) => assert!(!accepted, "flipped byte {} accepted", i),
            Err(e) => assert_eq!(e, BlsError::InvalidSignature),
        }
    }
}

#[test]
fn signature_round_trip() {
    let (_pk, sk) = keypair(&seed32(6), 1);
    let sig = sign(&sk, b"round trip").unwrap();
    let bytes = sig.to_bytes();
    let back = bls_sig::decode(&bytes).unwrap();
    assert_eq!(back.to_bytes(), bytes);
}

#[test]
fn public_key_round_trip() {
    let (pk, _sk) = keypair(&seed32(6), 1);
    let bytes = pk.to_bytes();
    let back = bls_pk::decode(&bytes).unwrap();
    assert_eq!(back.to_bytes(), bytes);
}

#[test]
fn secret_key_round_trip() {
    let (_pk, sk) = keypair(&seed32(6), 1);
    let bytes = sk.to_bytes();
    let back = bls_sk::decode(&bytes).unwrap();
    assert_eq!(back.to_bytes(), bytes);
}

#[test]
fn wrong_length_buffers_are_rejected() {
    assert_eq!(bls_sk::from_bytes(&[0u8; 31]).unwrap_err(), BlsError::WrongLength);
    assert_eq!(bls_sk::from_bytes(&[0u8; 33]).unwrap_err(), BlsError::WrongLength);
    assert_eq!(bls_pk::from_bytes(&[0u8; 47]).unwrap_err(), BlsError::WrongLength);
    assert_eq!(bls_pk::from_bytes(&[0u8; 96]).unwrap_err(), BlsError::WrongLength);
    assert_eq!(bls_sig::from_bytes(&[0u8; 95]).unwrap_err(), BlsError::WrongLength);
    assert_eq!(bls_sig::from_bytes(&[]).unwrap_err(), BlsError::WrongLength);
    assert_eq!(bls_sk::decode(&[0u8; 31]).unwrap_err(), BlsError::WrongLength);
    assert_eq!(bls_pk::decode(&[0u8; 47]).unwrap_err(), BlsError::WrongLength);
    assert_eq!(bls_sig::decode(&[0u8; 95]).unwrap_err(), BlsError::WrongLength);
}

#[test]
fn malformed_encodings_are_boundary_errors_everywhere() {
    let (pk, sk) = keypair(&seed32(8), 1);
    let msg = b"boundary";
    let sig = sign(&sk, msg).unwrap();

    // An all-zero buffer is never a valid compressed point or scalar.
    let bad_sk = bls_sk::from_bytes(&[0u8; 32]).unwrap();
    let bad_pk = bls_pk::from_bytes(&[0u8; 48]).unwrap();
    let bad_sig = bls_sig::from_bytes(&[0u8; 96]).unwrap();

    assert_eq!(sign(&bad_sk, msg).unwrap_err(), BlsError::InvalidSecretKey);
    assert_eq!(verify(&bad_pk, msg, &sig).unwrap_err(), BlsError::InvalidPublicKey);
    assert_eq!(verify(&pk, msg, &bad_sig).unwrap_err(), BlsError::InvalidSignature);
    assert_eq!(
        aggregate(&[sig.clone(), bad_sig.clone()]).unwrap_err(),
        BlsError::InvalidSignature
    );
    assert_eq!(
        verify_aggregated(&[bad_pk.clone()], msg, &sig).unwrap_err(),
        BlsError::InvalidPublicKey
    );
    assert_eq!(
        verify_aggregated(&[pk.clone()], msg, &bad_sig).unwrap_err(),
        BlsError::InvalidSignature
    );

    // A scalar at or above the group order is also rejected.
    let huge_sk = bls_sk::from_bytes(&[0xffu8; 32]).unwrap();
    assert_eq!(sign(&huge_sk, msg).unwrap_err(), BlsError::InvalidSecretKey);

    assert_eq!(bls_sk::decode(&[0u8; 32]).unwrap_err(), BlsError::InvalidSecretKey);
    assert_eq!(bls_pk::decode(&[0u8; 48]).unwrap_err(), BlsError::InvalidPublicKey);
    assert_eq!(bls_sig::decode(&[0u8; 96]).unwrap_err(), BlsError::InvalidSignature);
}

/// A compressed buffer that decodes to a point on the curve but outside the
/// prime-order subgroup must be rejected, not silently coerced. Candidate
/// buffers with small x coordinates land on the curve about half the time
/// and essentially never inside the subgroup (its index is astronomically
/// large), so scanning a few small candidates always finds one.
#[test]
fn out_of_subgroup_signature_point_is_rejected() {
    let mut found = false;
    for k in 0u8..=255 {
        let mut cand = vec![0u8; 96];
        cand[0] = 0x80; // compressed-point flag
        cand[95] = k;
        if blst::min_pk::Signature::from_bytes(&cand).is_ok() {
            // On the curve; our strict decode must still reject it.
            assert_eq!(
                bls_sig::decode(&cand).unwrap_err(),
                BlsError::InvalidSignature,
                "on-curve point with x = {} accepted despite being outside the subgroup",
                k
            );
            let (pk, _sk) = keypair(&seed32(40), 1);
            let sig = bls_sig::from_bytes(&cand).unwrap();
            assert_eq!(verify(&pk, b"m", &sig).unwrap_err(), BlsError::InvalidSignature);
            assert_eq!(aggregate(&[sig]).unwrap_err(), BlsError::InvalidSignature);
            found = true;
            break;
        }
    }
    assert!(found, "no on-curve candidate among the scanned x coordinates");
}

/// The same subgroup check for public-key points, which additionally covers
/// every operation that consumes a public key.
#[test]
fn out_of_subgroup_public_key_point_is_rejected() {
    let mut found = false;
    for k in 0u8..=255 {
        let mut cand = vec![0u8; 48];
        cand[0] = 0x80; // compressed-point flag
        cand[47] = k;
        if blst::min_pk::PublicKey::from_bytes(&cand).is_ok() {
            assert_eq!(
                bls_pk::decode(&cand).unwrap_err(),
                BlsError::InvalidPublicKey,
                "on-curve point with x = {} accepted despite being outside the subgroup",
                k
            );
            let (_pk, sk) = keypair(&seed32(41), 1);
            let sig = sign(&sk, b"m").unwrap();
            let pk = bls_pk::from_bytes(&cand).unwrap();
            assert_eq!(verify(&pk, b"m", &sig).unwrap_err(), BlsError::InvalidPublicKey);
            assert_eq!(
                verify_aggregated(&[pk], b"m", &sig).unwrap_err(),
                BlsError::InvalidPublicKey
            );
            found = true;
            break;
        }
    }
    assert!(found, "no on-curve candidate among the scanned x coordinates");
}

#[test]
fn key_pair_members_come_apart_unchanged() {
    let keys = keygen(&seed32(50), 0).unwrap();
    let pk_bytes = keys.pk().to_bytes();
    let sk_bytes = keys.sk().to_bytes();
    let (pk, sk) = keys.into_parts();
    assert_eq!(pk.to_bytes(), pk_bytes);
    assert_eq!(sk.to_bytes(), sk_bytes);
}

#[test]
fn aggregate_of_nothing_is_a_recoverable_error() {
    let empty: Vec<bls_sig> = vec![];
    let e = aggregate(&empty).unwrap_err();
    assert_eq!(e, BlsError::EmptyInput);
    assert!(!e.is_boundary_violation());
    assert!(BlsError::WrongLength.is_boundary_violation());
    assert!(BlsError::InvalidSignature.is_boundary_violation());

    let no_keys: Vec<bls_pk> = vec![];
    let (_pk, sk) = keypair(&seed32(2), 0);
    let sig = sign(&sk, b"m").unwrap();
    assert_eq!(verify_aggregated(&no_keys, b"m", &sig).unwrap_err(), BlsError::EmptyInput);
}

#[test]
fn aggregation_scenario_three_signers() {
    let msg = b"hello";
    let (pk1, sk1) = keypair(&seed_trailing(1), 0x01);
    let (pk2, sk2) = keypair(&seed_trailing(2), 0x01);
    let (pk3, sk3) = keypair(&seed_trailing(3), 0x01);

    let sigs = vec![
        sign(&sk1, msg).unwrap(),
        sign(&sk2, msg).unwrap(),
        sign(&sk3, msg).unwrap(),
    ];
    let agg = aggregate(&sigs).unwrap();

    let all = vec![pk1.clone(), pk2.clone(), pk3.clone()];
    assert_eq!(verify_aggregated(&all, msg, &agg), Ok(true));

    let two = vec![pk1.clone(), pk2.clone()];
    assert_eq!(verify_aggregated(&two, msg, &agg), Ok(false));
}

#[test]
fn aggregation_is_order_independent() {
    let msg = b"same message for everyone";
    let (pk1, sk1) = keypair(&seed32(11), 1);
    let (pk2, sk2) = keypair(&seed32(12), 1);
    let (pk3, sk3) = keypair(&seed32(13), 1);
    let s1 = sign(&sk1, msg).unwrap();
    let s2 = sign(&sk2, msg).unwrap();
    let s3 = sign(&sk3, msg).unwrap();

    let a = aggregate(&[s1.clone(), s2.clone(), s3.clone()]).unwrap();
    let b = aggregate(&[s3.clone(), s1.clone(), s2.clone()]).unwrap();
    assert_eq!(a.to_bytes(), b.to_bytes());

    // The permuted aggregate still verifies against a permuted key list.
    let keys = vec![pk2.clone(), pk3.clone(), pk1.clone()];
    assert_eq!(verify_aggregated(&keys, msg, &b), Ok(true));
}

#[test]
fn aggregate_of_one_signature_is_that_signature() {
    let (_pk, sk) = keypair(&seed32(23), 1);
    let sig = sign(&sk, b"alone").unwrap();
    let agg = aggregate(&[sig.clone()]).unwrap();
    assert_eq!(agg.to_bytes(), sig.to_bytes());
}

/// Keys whose secret scalars cancel (here 1 and r-1, so the public keys are
/// G and -G) drive the aggregate of their signatures to the identity
/// element. Aggregation must still succeed — it performs no validity check —
/// and aggregated verification must answer an ordinary `Ok(false)`, because
/// the primitives refuse the infinite key sum such an aggregate implies.
#[test]
fn cancelling_keys_aggregate_to_identity_and_do_not_verify() {
    let msg = b"cancel";
    let mut one = vec![0u8; 32];
    one[31] = 1;
    // The group order r minus one, big-endian.
    let r_minus_1: Vec<u8> = vec![
        0x73, 0xed, 0xa7, 0x53, 0x29, 0x9d, 0x7d, 0x48, 0x33, 0x39, 0xd8, 0x08, 0x09, 0xa1,
        0xd8, 0x05, 0x53, 0xbd, 0xa4, 0x02, 0xff, 0xfe, 0x5b, 0xfe, 0xff, 0xff, 0xff, 0xff,
        0x00, 0x00, 0x00, 0x00,
    ];
    let sk1 = bls_sk::decode(&one).unwrap();
    let sk2 = bls_sk::decode(&r_minus_1).unwrap();
    let pk1 = bls_pk::from_bytes(
        &blst::min_pk::SecretKey::from_bytes(&one).unwrap().sk_to_pk().to_bytes(),
    )
    .unwrap();
    let pk2 = bls_pk::from_bytes(
        &blst::min_pk::SecretKey::from_bytes(&r_minus_1).unwrap().sk_to_pk().to_bytes(),
    )
    .unwrap();

    let s1 = sign(&sk1, msg).unwrap();
    let s2 = sign(&sk2, msg).unwrap();
    assert!(!s1.is_identity());

    let agg = aggregate(&[s1, s2]).unwrap();
    assert!(agg.is_identity());
    let bytes = agg.to_bytes();
    assert_eq!(bytes[0], 0xc0);
    assert!(bytes[1..].iter().all(|b| *b == 0));

    assert_eq!(verify_aggregated(&[pk1, pk2], msg, &agg), Ok(false));
}

#[test]
fn malformed_aggregate_outranks_empty_key_list() {
    let no_keys: Vec<bls_pk> = vec![];
    let bad_sig = bls_sig::from_bytes(&[0u8; 96]).unwrap();
    assert_eq!(
        verify_aggregated(&no_keys, b"m", &bad_sig).unwrap_err(),
        BlsError::InvalidSignature
    );
}

#[test]
fn aggregate_differs_from_each_part() {
    let msg = b"parts";
    let (_pk1, sk1) = keypair(&seed32(21), 0);
    let (_pk2, sk2) = keypair(&seed32(22), 0);
    let s1 = sign(&sk1, msg).unwrap();
    let s2 = sign(&sk2, msg).unwrap();
    let agg = aggregate(&[s1.clone(), s2.clone()]).unwrap();
    assert_ne!(agg.to_bytes(), s1.to_bytes());
    assert_ne!(agg.to_bytes(), s2.to_bytes());
}

#[test]
fn flipped_aggregate_byte_never_verifies() {
    let msg = b"agg flip";
    let (pk1, sk1) = keypair(&seed32(31), 1);
    let (pk2, sk2) = keypair(&seed32(32), 1);
    let sigs = vec![sign(&sk1, msg).unwrap(), sign(&sk2, msg).unwrap()];
    let good = aggregate(&sigs).unwrap().to_bytes();
    let keys = vec![pk1, pk2];
    for i in 0..good.len() {
        let mut bad = good.clone();
        bad[i] ^= 0xff;
        let sig = bls_sig::from_bytes(&bad).unwrap();
        match verify_aggregated(&keys, msg, &sig) {
            Ok(accepted) => assert!(!accepted, "flipped byte {} accepted", i),
            Err(e) => assert_eq!(e, BlsError::InvalidSignature),
        }
    }
}
