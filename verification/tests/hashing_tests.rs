use binding_crypto::field::Fe;
use binding_crypto::hashing::{
    felt_to_string, message_digest, poseidon, poseidon_many, poseidon_single,
    prf_expand_personalization_felt, random_felt,
};

fn bytes32(v: u64) -> Vec<u8> {
    Fe::from_u64(v).to_bytes()
}

#[test]
fn hex_rendering() {
    assert_eq!(felt_to_string(&bytes32(0)), "0x0");
    assert_eq!(felt_to_string(&bytes32(1)), "0x1");
    assert_eq!(felt_to_string(&bytes32(255)), "0xff");
    assert_eq!(felt_to_string(&bytes32(0xdead_beef)), "0xdeadbeef");
}

#[test]
fn byte_decode_reduces_modulo_prime() {
    // The canonical encoding of the Stark prime itself decodes to zero.
    let mut prime_bytes = vec![0u8; 32];
    prime_bytes[0] = 0x08;
    prime_bytes[7] = 0x11;
    prime_bytes[31] = 0x01;
    assert_eq!(Fe::from_bytes(&prime_bytes), Fe::from_u64(0));
}

#[test]
fn byte_slice_decode_arbitrary_length() {
    assert_eq!(Fe::from_bytes_slice(&vec![1u8, 0u8]), Fe::from_u64(256));
    assert_eq!(Fe::from_bytes_slice(&Vec::new()), Fe::from_u64(0));
}

#[test]
fn poseidon_outputs_differ_from_inputs() {
    let x = bytes32(1);
    let y = bytes32(2);
    assert_ne!(poseidon(&x, &y), x);
    assert_ne!(poseidon(&x, &y), y);
    assert_ne!(poseidon_single(&x), x);
    // The pairwise hash and the variadic hash of two elements are distinct
    // constructions.
    assert_ne!(poseidon_many(&vec![x.clone(), y.clone()]), poseidon(&x, &y));
}

#[test]
fn poseidon_single_pads_and_truncates() {
    // A short input is zero-padded on the right before the decode.
    let one_then_zeros = poseidon_single(&vec![1u8]);
    let mut padded = vec![0u8; 32];
    padded[0] = 1;
    assert_eq!(one_then_zeros, poseidon_single(&padded));
    // A long input is cut to its first 32 bytes.
    let mut long = vec![7u8; 40];
    long[35] = 9;
    assert_eq!(poseidon_single(&long), poseidon_single(&vec![7u8; 32]));
}

#[test]
fn digest_depends_on_order() {
    let a = bytes32(1);
    let b = bytes32(2);
    let d1 = message_digest(&vec![a.clone(), b.clone()]);
    let d2 = message_digest(&vec![b, a]);
    assert_ne!(d1, d2);
}

#[test]
fn digest_matches_poseidon_many() {
    let inputs = vec![bytes32(3), bytes32(4), bytes32(5)];
    assert_eq!(message_digest(&inputs).to_bytes(), poseidon_many(&inputs));
}

#[test]
fn random_felt_is_canonical() {
    let r = random_felt();
    assert_eq!(r.len(), 32);
    // The drawn value is already in canonical form: decoding it again is the
    // identity.
    assert_eq!(Fe::from_bytes(&r).to_bytes(), r);
}

#[test]
fn test_prf_expand_personalization() {
    println!(
        "PRF_EXPAND_PERSONALIZATION_FELT bytes: {:?}",
        prf_expand_personalization_felt()
    );

    println!("hex: {:?}", felt_to_string(&prf_expand_personalization_felt()));
}

#[test]
fn prf_expand_personalization_value() {
    let bytes = prf_expand_personalization_felt();
    let mut expected = vec![0u8; 16];
    expected.extend(b"Cairo_ExpandSeed".to_vec());
    assert_eq!(bytes, expected);
    assert_eq!(
        felt_to_string(&bytes),
        "0x436169726f5f457870616e6453656564"
    );
}

#[test]
fn generate_compliance_input_test_params() {
    println!("Felf one hex: {:?}", felt_to_string(&bytes32(1)));
    let input_nf_key = bytes32(1);
    let input_npk = poseidon(&input_nf_key, &bytes32(0));
    println!("input_npk: {:?}", felt_to_string(&input_npk));
}
