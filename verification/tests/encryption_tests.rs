use binding_crypto::binding_sig::cairo_get_binding_sig_public_key;
use binding_crypto::curve::Point;
use binding_crypto::encryption::{Ciphertext, Plaintext};
use binding_crypto::field::Fe;

fn fe(v: u64) -> Fe {
    Fe::from_u64(v)
}

fn point_from_pk_bytes(bytes: &[u8]) -> Point {
    let x = Fe::from_bytes(&bytes[0..32].to_vec());
    let y = Fe::from_bytes(&bytes[32..64].to_vec());
    Point::new(x, y).expect("public key bytes must form a curve point")
}

#[test]
fn test_encryption() {
    // Key generation
    let sender_sk = fe(1);
    let pk = Point::generator();

    let messages = vec![fe(1), fe(0), fe(1)];
    let encrypt_nonce = fe(1);

    // Encryption
    let cipher = Ciphertext::encrypt(&messages, &pk, &sender_sk, &encrypt_nonce);

    // Decryption
    let decryption = cipher.decrypt(&fe(1)).unwrap();

    let padded_plaintext = Plaintext::padding(&messages);
    assert_eq!(padded_plaintext.to_vec(), decryption);
}

#[test]
fn end_to_end_example() {
    let cipher = Ciphertext::encrypt(&vec![fe(1), fe(0), fe(1)], &Point::generator(), &fe(1), &fe(1));
    assert_eq!(cipher.inner().len(), 14);
    let decryption = cipher.decrypt(&fe(1)).unwrap();
    let expected = vec![fe(1), fe(0), fe(1), fe(0), fe(0), fe(0), fe(0), fe(0), fe(0), fe(0)];
    assert_eq!(decryption, expected);
}

#[test]
fn round_trip_distinct_keys() {
    let sender_sk = fe(123456789);
    let recipient_sk = fe(987654321);
    let recipient_pk_bytes =
        cairo_get_binding_sig_public_key(&recipient_sk.to_bytes()).unwrap();
    let recipient_pk = point_from_pk_bytes(&recipient_pk_bytes);

    let messages = vec![fe(7), fe(11), fe(13), fe(17), fe(19)];
    let nonce = fe(42);
    let cipher = Ciphertext::encrypt(&messages, &recipient_pk, &sender_sk, &nonce);
    let decryption = cipher.decrypt(&recipient_sk).unwrap();
    assert_eq!(Plaintext::padding(&messages).to_vec(), decryption);
}

#[test]
fn full_width_round_trip() {
    let messages: Vec<Fe> = (1..=10).map(fe).collect();
    // The generator is the public key of the scalar one.
    let cipher = Ciphertext::encrypt(&messages, &Point::generator(), &fe(3), &fe(9));
    let decryption = cipher.decrypt(&fe(1)).unwrap();
    assert_eq!(Plaintext::padding(&messages).to_vec(), decryption);
}

#[test]
fn wrong_key_fails_authentication() {
    let cipher = Ciphertext::encrypt(&vec![fe(1), fe(2)], &Point::generator(), &fe(5), &fe(6));
    assert!(cipher.decrypt(&fe(7)).is_none());
}

#[test]
fn tamper_single_bits_rejected() {
    let cipher = Ciphertext::encrypt(&vec![fe(1), fe(0), fe(1)], &Point::generator(), &fe(2), &fe(3));
    // The generator is the public key of the scalar one, so one decrypts.
    assert!(cipher.decrypt(&fe(1)).is_some());
    // The MAC is the hash of the last payload element and the shared key, so
    // it catches changes to that element, to the stored tag itself, and to
    // the embedded public key; flip single bits in each of those positions.
    let bit_positions: Vec<usize> = {
        let mut v: Vec<usize> = (0..256).step_by(17).collect();
        v.push(7);
        v.push(255);
        v
    };
    for idx in 9..13 {
        for &bit in &bit_positions {
            let mut elems = cipher.inner().clone();
            let mut bytes = elems[idx].to_bytes();
            bytes[bit / 8] ^= 1 << (bit % 8);
            elems[idx] = Fe::from_bytes(&bytes);
            let tampered = Ciphertext::from_vec(elems);
            assert!(
                tampered.try_decrypt(&fe(1)).is_none(),
                "bit {} of element {} flipped without detection",
                bit,
                idx
            );
        }
    }
}

#[test]
fn tampered_payload_decrypts_to_other_plaintext() {
    // The running state is recomputed from each ciphertext element alone, so
    // a change to one of the first nine payload elements is not caught by the
    // MAC; it surfaces as a different recovered plaintext instead.
    let cipher = Ciphertext::encrypt(&vec![fe(1), fe(0), fe(1)], &Point::generator(), &fe(2), &fe(3));
    let honest = cipher.decrypt(&fe(1)).unwrap();
    let mut elems = cipher.inner().clone();
    let mut bytes = elems[0].to_bytes();
    bytes[31] ^= 1;
    elems[0] = Fe::from_bytes(&bytes);
    let tampered = Ciphertext::from_vec(elems).decrypt(&fe(1)).unwrap();
    assert_ne!(honest, tampered);
    assert_ne!(tampered[0], fe(1));
}

#[test]
fn length_rejection() {
    let cipher = Ciphertext::encrypt(&vec![fe(1)], &Point::generator(), &fe(2), &fe(3));

    let mut short = cipher.inner().clone();
    short.pop();
    assert!(Ciphertext::from_vec(short).decrypt(&fe(1)).is_none());

    let mut long = cipher.inner().clone();
    long.push(fe(0));
    assert!(Ciphertext::from_vec(long).decrypt(&fe(1)).is_none());

    assert!(Ciphertext::from_vec(Vec::new()).try_decrypt(&fe(1)).is_none());
}

#[test]
fn nonce_separation() {
    let messages = vec![fe(4), fe(5), fe(6)];
    let c1 = Ciphertext::encrypt(&messages, &Point::generator(), &fe(8), &fe(1));
    let c2 = Ciphertext::encrypt(&messages, &Point::generator(), &fe(8), &fe(2));
    for i in 0..10 {
        assert_ne!(c1.inner()[i], c2.inner()[i], "payload position {} repeated", i);
    }
    assert_ne!(c1.inner()[13], c2.inner()[13]);
}

#[test]
fn embedded_sender_key_and_nonce() {
    let nonce = fe(77);
    let sender_sk = fe(21);
    let cipher = Ciphertext::encrypt(&vec![fe(1)], &Point::generator(), &sender_sk, &nonce);
    let sender_pk_bytes = cairo_get_binding_sig_public_key(&sender_sk.to_bytes()).unwrap();
    assert_eq!(cipher.inner()[11].to_bytes().as_slice(), &sender_pk_bytes[0..32]);
    assert_eq!(cipher.inner()[12].to_bytes().as_slice(), &sender_pk_bytes[32..64]);
    assert_eq!(cipher.inner()[13], nonce);
}

#[test]
fn try_encrypt_matches_encrypt() {
    let messages = vec![fe(1), fe(2), fe(3)];
    let direct = Ciphertext::encrypt(&messages, &Point::generator(), &fe(4), &fe(5));
    let checked = Ciphertext::try_encrypt(&messages, &Point::generator(), &fe(4), &fe(5)).unwrap();
    assert_eq!(direct.inner(), checked.inner());
}
