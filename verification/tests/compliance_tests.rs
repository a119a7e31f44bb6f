use binding_crypto::compliance::{ComplianceInputJson, ResourceJson};
use binding_crypto::field::Fe;

fn bytes32(v: u64) -> Vec<u8> {
    Fe::from_u64(v).to_bytes()
}

fn resource_bytes() -> Vec<u8> {
    // Seven 32-byte field elements holding 1..=7, then the ephemerality flag.
    let mut bytes = Vec::new();
    for v in 1..=7u64 {
        bytes.extend(bytes32(v));
    }
    bytes.push(1u8);
    bytes
}

#[test]
fn resource_from_bytes_layout() {
    let r = ResourceJson::from_bytes(&resource_bytes());
    assert_eq!(r.logic, "0x1");
    assert_eq!(r.label, "0x2");
    assert_eq!(r.quantity, "0x3");
    assert_eq!(r.data, "0x4");
    assert_eq!(r.nonce, "0x5");
    assert_eq!(r.npk, "0x6");
    assert_eq!(r.rseed, "0x7");
    assert!(r.eph);
}

#[test]
fn resource_from_bytes_flag_clear() {
    let mut bytes = resource_bytes();
    bytes[224] = 0;
    assert!(!ResourceJson::from_bytes(&bytes).eph);
}

#[test]
fn compliance_input_from_parts() {
    let path = vec![bytes32(11), bytes32(12), bytes32(13)];
    let input = ComplianceInputJson::from_parts(
        &resource_bytes(),
        &resource_bytes(),
        &path,
        5,
        &bytes32(21),
        &bytes32(22),
        &bytes32(23),
    );
    assert_eq!(input.input_nf_key, "0x15");
    assert_eq!(input.eph_root, "0x16");
    assert_eq!(input.rcv, "0x17");
    assert_eq!(input.input.logic, "0x1");
    assert_eq!(input.output.rseed, "0x7");
    assert_eq!(input.merkle_path.len(), 3);
    assert_eq!(input.merkle_path[0].fst, "0xb");
    assert_eq!(input.merkle_path[1].fst, "0xc");
    assert_eq!(input.merkle_path[2].fst, "0xd");
    // The position 5 is 101 in binary, read from the least significant bit up.
    assert!(input.merkle_path[0].snd);
    assert!(!input.merkle_path[1].snd);
    assert!(input.merkle_path[2].snd);
}

#[test]
fn compliance_input_position_zero() {
    let path = vec![bytes32(1), bytes32(2)];
    let input = ComplianceInputJson::from_parts(
        &resource_bytes(),
        &resource_bytes(),
        &path,
        0,
        &bytes32(1),
        &bytes32(2),
        &bytes32(3),
    );
    assert!(!input.merkle_path[0].snd);
    assert!(!input.merkle_path[1].snd);
}
