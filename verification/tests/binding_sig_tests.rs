use binding_crypto::binding_sig::{
    binding_sig_sign_with_k, cairo_binding_sig_sign, cairo_binding_sig_verify,
    cairo_get_binding_sig_public_key,
};
use binding_crypto::curve::Point;
use binding_crypto::errors::{CairoBindingSigError, CairoBindingSigVerifyError, CairoSignError};
use binding_crypto::field::Fe;

fn scalar_bytes(v: u64) -> Vec<u8> {
    Fe::from_u64(v).to_bytes()
}

fn pk_bytes(v: u64) -> Vec<u8> {
    cairo_get_binding_sig_public_key(&scalar_bytes(v)).unwrap()
}

#[test]
fn signature_aggregation_additivity() {
    let a: u64 = 5;
    let b: u64 = 7;
    let messages = vec![scalar_bytes(42), scalar_bytes(43)];

    // Two shares, concatenated for signing, their points aggregated for
    // verification.
    let mut segments = scalar_bytes(a);
    segments.extend(scalar_bytes(b));
    let signature = cairo_binding_sig_sign(&segments, &messages).unwrap();
    assert_eq!(signature.len(), 64);
    let shares = vec![pk_bytes(a), pk_bytes(b)];
    assert_eq!(cairo_binding_sig_verify(&shares, &messages, &signature), Ok(true));

    // The single combined share signs for the same aggregate key.
    let combined = scalar_bytes(a + b);
    let signature2 = cairo_binding_sig_sign(&combined, &messages).unwrap();
    assert_eq!(
        cairo_binding_sig_verify(&vec![pk_bytes(a + b)], &messages, &signature2),
        Ok(true)
    );

    // Cross-check: the aggregate of the two share points verifies the
    // combined-share signature as well.
    assert_eq!(cairo_binding_sig_verify(&shares, &messages, &signature2), Ok(true));
}

#[test]
fn verify_rejects_wrong_message() {
    let segments = scalar_bytes(9);
    let messages = vec![scalar_bytes(1)];
    let signature = cairo_binding_sig_sign(&segments, &messages).unwrap();
    let other_messages = vec![scalar_bytes(2)];
    assert_eq!(
        cairo_binding_sig_verify(&vec![pk_bytes(9)], &other_messages, &signature),
        Ok(false)
    );
}

#[test]
fn verify_rejects_invalid_point() {
    let messages = vec![scalar_bytes(1)];
    let signature = cairo_binding_sig_sign(&scalar_bytes(3), &messages).unwrap();
    let bogus_share = vec![1u8; 64];
    assert_eq!(
        cairo_binding_sig_verify(&vec![bogus_share], &messages, &signature),
        Err(CairoBindingSigVerifyError::InputError)
    );
}

#[test]
fn verify_rejects_empty_share_list() {
    let messages = vec![scalar_bytes(1)];
    let signature = cairo_binding_sig_sign(&scalar_bytes(3), &messages).unwrap();
    // An empty share list leaves the aggregate at the group identity, which
    // has no x coordinate to verify against.
    assert_eq!(
        cairo_binding_sig_verify(&Vec::new(), &messages, &signature),
        Err(CairoBindingSigVerifyError::InputError)
    );
}

#[test]
fn sign_rejects_zero_nonce() {
    let messages = vec![scalar_bytes(1)];
    let result = binding_sig_sign_with_k(&scalar_bytes(3), &messages, &Fe::from_u64(0));
    assert!(matches!(result, Err(CairoSignError::SignatureGenerationError(_))));
}

#[test]
fn public_key_of_one_is_generator() {
    let bytes = pk_bytes(1);
    let generator = Point::generator();
    assert_eq!(&bytes[0..32], generator.x.to_bytes().as_slice());
    assert_eq!(&bytes[32..64], generator.y.to_bytes().as_slice());
    assert_ne!(pk_bytes(2), bytes);
}

#[test]
fn public_key_of_zero_fails() {
    // Zero times the generator is the group identity, which has no affine
    // coordinates.
    assert_eq!(
        cairo_get_binding_sig_public_key(&scalar_bytes(0)),
        Err(CairoBindingSigError::KeyGenerationError)
    );
}

#[test]
fn verify_rejects_wrong_length_signature() {
    let messages = vec![scalar_bytes(1)];
    let signature = cairo_binding_sig_sign(&scalar_bytes(3), &messages).unwrap();
    let shares = vec![pk_bytes(3)];

    let mut short = signature.clone();
    short.pop();
    assert_eq!(
        cairo_binding_sig_verify(&shares, &messages, &short),
        Err(CairoBindingSigVerifyError::InputError)
    );

    let mut long = signature.clone();
    long.push(0);
    assert_eq!(
        cairo_binding_sig_verify(&shares, &messages, &long),
        Err(CairoBindingSigVerifyError::InputError)
    );

    assert_eq!(
        cairo_binding_sig_verify(&shares, &messages, &Vec::new()),
        Err(CairoBindingSigVerifyError::InputError)
    );
}

#[test]
fn verify_rejects_wrong_length_share_group() {
    let messages = vec![scalar_bytes(1)];
    let signature = cairo_binding_sig_sign(&scalar_bytes(3), &messages).unwrap();
    let mut short_share = pk_bytes(3);
    short_share.pop();
    assert_eq!(
        cairo_binding_sig_verify(&vec![short_share], &messages, &signature),
        Err(CairoBindingSigVerifyError::InputError)
    );
}

#[test]
fn sign_rejects_order_nonce() {
    // The curve order is the one nonzero scalar below the field prime whose
    // generator multiple is the group identity; the sign primitive cannot use
    // it as a nonce.
    let order_bytes: Vec<u8> = vec![
        0x08, 0x00, 0x00, 0x00, 0x00, 0x00, 0x00, 0x10, 0xff, 0xff, 0xff, 0xff, 0xff, 0xff,
        0xff, 0xff, 0xb7, 0x81, 0x12, 0x6d, 0xca, 0xe7, 0xb2, 0x32, 0x1e, 0x66, 0xa2, 0x41,
        0xad, 0xc6, 0x4d, 0x2f,
    ];
    let k = Fe::from_bytes(&order_bytes);
    let messages = vec![scalar_bytes(1)];
    let result = binding_sig_sign_with_k(&scalar_bytes(3), &messages, &k);
    assert!(matches!(result, Err(CairoSignError::SignatureGenerationError(_))));
}

#[test]
fn verify_rejects_degenerate_point_combination() {
    // With r equal to the message digest and s = 1, the verify primitive's
    // two combined points collapse into the group identity; such a signature
    // must be rejected, not answered.
    for v in 7..16u64 {
        let messages = vec![scalar_bytes(v)];
        let digest = binding_crypto::hashing::message_digest(&messages);
        let mut signature = digest.to_bytes();
        signature.extend(scalar_bytes(1));
        assert_eq!(
            cairo_binding_sig_verify(&vec![pk_bytes(1)], &messages, &signature),
            Err(CairoBindingSigVerifyError::VerificationError)
        );
    }
}

#[test]
fn key_aggregation_sums_before_reduction() {
    // Two shares together and their integer sum yield interchangeable
    // signatures under the same aggregate public key.
    let messages = vec![scalar_bytes(5)];
    let mut segments = scalar_bytes(1000);
    segments.extend(scalar_bytes(2345));
    let signature = cairo_binding_sig_sign(&segments, &messages).unwrap();
    assert_eq!(
        cairo_binding_sig_verify(&vec![pk_bytes(3345)], &messages, &signature),
        Ok(true)
    );
}
