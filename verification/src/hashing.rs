//! The Poseidon hash primitive and the shared digest utility: byte groups are
//! decoded big-endian into field elements, in order, and hashed. The hash
//! values themselves are named functions of their inputs; nothing about them
//! is restated here.
use vstd::prelude::*;

use crate::field::{be_val, stark_prime, Fe};
use rand::RngCore;
use starknet_crypto::{poseidon_hash, poseidon_hash_many, poseidon_hash_single};
use starknet_types_core::felt::Felt;

verus! {

/// The Starknet Poseidon hash of a single field element.
pub uninterp spec fn poseidon1_of(x: nat) -> nat;

/// The Starknet Poseidon hash of a pair of field elements.
pub uninterp spec fn poseidon2_of(x: nat, y: nat) -> nat;

/// The Starknet Poseidon hash of an ordered list of field elements.
pub uninterp spec fn poseidon_many_of(xs: Seq<nat>) -> nat;

/// The values of a list of field elements.
pub open spec fn fe_vals(s: Seq<Fe>) -> Seq<nat> {
    s.map_values(|f: Fe| f.val())
}

/// The views of a list of byte vectors.
pub open spec fn views_of(s: Seq<Vec<u8>>) -> Seq<Seq<u8>> {
    s.map_values(|v: Vec<u8>| v@)
}

/// The field elements encoded big-endian by a list of 32-byte groups.
pub open spec fn decoded_vals(msgs: Seq<Seq<u8>>) -> Seq<nat> {
    msgs.map_values(|m: Seq<u8>| be_val(m) % stark_prime())
}

/// The digest of an ordered list of 32-byte groups: each group is decoded
/// big-endian into a field element and the list is hashed with Poseidon.
pub open spec fn digest_of(msgs: Seq<Seq<u8>>) -> nat {
    poseidon_many_of(decoded_vals(msgs))
}

/// Relies on `starknet_crypto::poseidon_hash_single`.
#[verifier::external_body]
pub(crate) fn hash_single_fe(x: &Fe) -> (r: Fe)
    requires
        x.wf(),
    ensures
        r.wf(),
        r.val() == poseidon1_of(x.val()),
{
    let fx = Felt::from_bytes_be(&x.bytes.as_slice().try_into().unwrap());
    Fe { bytes: poseidon_hash_single(fx).to_bytes_be().to_vec() }
}

/// Relies on `starknet_crypto::poseidon_hash`.
#[verifier::external_body]
pub(crate) fn hash_pair_fe(x: &Fe, y: &Fe) -> (r: Fe)
    requires
        x.wf(),
        y.wf(),
    ensures
        r.wf(),
        r.val() == poseidon2_of(x.val(), y.val()),
{
    let fx = Felt::from_bytes_be(&x.bytes.as_slice().try_into().unwrap());
    let fy = Felt::from_bytes_be(&y.bytes.as_slice().try_into().unwrap());
    Fe { bytes: poseidon_hash(fx, fy).to_bytes_be().to_vec() }
}

/// Relies on `starknet_crypto::poseidon_hash_many`, applied to the elements in
/// their given order.
#[verifier::external_body]
pub(crate) fn hash_many_fe(xs: &Vec<Fe>) -> (r: Fe)
    requires
        forall|i: int| 0 <= i < xs@.len() ==> xs@[i].wf(),
    ensures
        r.wf(),
        r.val() == poseidon_many_of(fe_vals(xs@)),
{
    let felts: Vec<Felt> = xs
        .iter()
        .map(|f| Felt::from_bytes_be(&f.bytes.as_slice().try_into().unwrap()))
        .collect();
    Fe { bytes: poseidon_hash_many(&felts).to_bytes_be().to_vec() }
}

/// Maps an ordered list of 32-byte groups to field elements (big-endian
/// decode) and hashes them with the variadic Poseidon hash. Used both for the
/// encryption state seed and for the binding signature's message digest; the
/// input order matters.
pub fn message_digest(msg: &Vec<Vec<u8>>) -> (r: Fe)
    requires
        forall|i: int| 0 <= i < msg@.len() ==> (#[trigger] msg@[i])@.len() == 32,
    ensures
        r.wf(),
        r.val() == digest_of(views_of(msg@)),
{
    let mut fes: Vec<Fe> = Vec::new();
    let n: usize = msg.len();
    let mut i: usize = 0;
    while i < n
        invariant
            n == msg@.len(),
            i <= n,
            fes@.len() == i,
            forall|j: int| 0 <= j < msg@.len() ==> (#[trigger] msg@[j])@.len() == 32,
            forall|j: int| 0 <= j < i ==> (#[trigger] fes@[j]).wf() && fes@[j].val() == be_val(
                msg@[j]@,
            ) % stark_prime(),
        decreases n - i,
    {
        let fe = Fe::from_bytes(&msg[i]);
        fes.push(fe);
        i = i + 1;
    }
    let r = hash_many_fe(&fes);
    proof {
        assert(fe_vals(fes@) =~= decoded_vals(views_of(msg@)));
    }
    r
}

/// Hashes a single byte string with Poseidon. The input is padded on the
/// right with zero bytes to 32 bytes, or cut to its first 32 bytes, before the
/// big-endian decode.
pub fn poseidon_single(x: &Vec<u8>) -> (r: Vec<u8>)
    ensures
        r@.len() == 32,
        be_val(r@) == poseidon1_of(be_val(padded32(x@)) % stark_prime()),
{
    let mut padded: Vec<u8> = Vec::new();
    let mut i: usize = 0;
    while i < 32
        invariant
            i <= 32,
            padded@.len() == i,
            forall|j: int| 0 <= j < i ==> padded@[j] == (if j < x@.len() {
                x@[j]
            } else {
                0u8
            }),
        decreases 32 - i,
    {
        if i < x.len() {
            let b = x[i];
            padded.push(b);
        } else {
            padded.push(0u8);
        }
        i = i + 1;
    }
    proof {
        assert(padded@ =~= padded32(x@));
    }
    let fe = Fe::from_bytes(&padded);
    let h = hash_single_fe(&fe);
    h.to_bytes()
}

/// A byte string brought to exactly 32 bytes: padded on the right with zero
/// bytes, or cut to its first 32 bytes.
pub open spec fn padded32(s: Seq<u8>) -> Seq<u8> {
    if s.len() >= 32 {
        s.take(32)
    } else {
        s + Seq::new((32 - s.len()) as nat, |i: int| 0u8)
    }
}

/// Hashes a pair of 32-byte strings with Poseidon.
pub fn poseidon(x: &Vec<u8>, y: &Vec<u8>) -> (r: Vec<u8>)
    requires
        x@.len() == 32,
        y@.len() == 32,
    ensures
        r@.len() == 32,
        be_val(r@) == poseidon2_of(
            be_val(x@) % stark_prime(),
            be_val(y@) % stark_prime(),
        ),
{
    let fx = Fe::from_bytes(x);
    let fy = Fe::from_bytes(y);
    let h = hash_pair_fe(&fx, &fy);
    h.to_bytes()
}

/// Hashes an ordered list of 32-byte strings with the variadic Poseidon hash.
pub fn poseidon_many(inputs: &Vec<Vec<u8>>) -> (r: Vec<u8>)
    requires
        forall|i: int| 0 <= i < inputs@.len() ==> (#[trigger] inputs@[i])@.len() == 32,
    ensures
        r@.len() == 32,
        be_val(r@) == digest_of(views_of(inputs@)),
{
    let h = message_digest(inputs);
    h.to_bytes()
}

/// The hexadecimal digit standing for a value below 16.
pub open spec fn hex_digit(d: nat) -> char {
    if d == 0 {
        '0'
    } else if d == 1 {
        '1'
    } else if d == 2 {
        '2'
    } else if d == 3 {
        '3'
    } else if d == 4 {
        '4'
    } else if d == 5 {
        '5'
    } else if d == 6 {
        '6'
    } else if d == 7 {
        '7'
    } else if d == 8 {
        '8'
    } else if d == 9 {
        '9'
    } else if d == 10 {
        'a'
    } else if d == 11 {
        'b'
    } else if d == 12 {
        'c'
    } else if d == 13 {
        'd'
    } else if d == 14 {
        'e'
    } else {
        'f'
    }
}

/// The hexadecimal digits of a value, most significant first, with no leading
/// zeros (empty for zero).
pub open spec fn hex_digits(v: nat) -> Seq<char>
    decreases v,
{
    if v == 0 {
        Seq::empty()
    } else {
        hex_digits(v / 16).push(hex_digit(v % 16))
    }
}

/// The `0x`-prefixed lowercase hexadecimal rendering of a value, with no
/// leading zeros.
pub open spec fn hex_str_of(v: nat) -> Seq<char> {
    if v == 0 {
        seq!['0', 'x', '0']
    } else {
        seq!['0', 'x'] + hex_digits(v)
    }
}

/// Renders a 32-byte big-endian field element encoding as a `0x`-prefixed
/// lowercase hexadecimal string of its value.
///
/// Relies on `Felt::from_bytes_be` (big-endian decode modulo the Stark prime)
/// and `Felt::to_hex_string` (minimal lowercase hexadecimal with `0x` prefix).
#[verifier::external_body]
pub fn felt_to_string(felt: &Vec<u8>) -> (r: String)
    requires
        felt@.len() == 32,
    ensures
        r@ == hex_str_of(be_val(felt@) % stark_prime()),
{
    let f = Felt::from_bytes_be(&felt.as_slice().try_into().unwrap());
    f.to_hex_string()
}

/// Relies on rand's `thread_rng` and `fill_bytes`: 32 bytes drawn from the
/// thread-local cryptographically secure generator. Nothing is known of the
/// drawn bytes.
#[verifier::external_body]
pub(crate) fn random_bytes32() -> (r: Vec<u8>)
    ensures
        r@.len() == 32,
{
    let mut rng = rand::thread_rng();
    let mut buf: [u8; 32] = Default::default();
    rng.fill_bytes(&mut buf);
    buf.to_vec()
}

/// Draws a uniformly random byte string and returns the canonical encoding of
/// the field element it stands for. Suitable as a private key or nonce.
pub fn random_felt() -> (r: Vec<u8>)
    ensures
        r@.len() == 32,
        be_val(r@) < stark_prime(),
{
    let raw = random_bytes32();
    let fe = Fe::from_bytes(&raw);
    fe.to_bytes()
}

/// The personalization prefix for PRF seed expansion: the ASCII bytes of
/// `Cairo_ExpandSeed`, left-padded with zero bytes to 32 bytes.
pub open spec fn prf_expand_personalization() -> Seq<u8> {
    seq![
        0u8, 0u8, 0u8, 0u8, 0u8, 0u8, 0u8, 0u8, 0u8, 0u8, 0u8, 0u8, 0u8, 0u8, 0u8, 0u8, 67u8,
        97u8, 105u8, 114u8, 111u8, 95u8, 69u8, 120u8, 112u8, 97u8, 110u8, 100u8, 83u8, 101u8,
        101u8, 100u8,
    ]
}

/// The PRF seed-expansion personalization constant as bytes.
pub fn prf_expand_personalization_felt() -> (r: Vec<u8>)
    ensures
        r@ == prf_expand_personalization(),
{
    let r: Vec<u8> = vec![
        0u8, 0u8, 0u8, 0u8, 0u8, 0u8, 0u8, 0u8, 0u8, 0u8, 0u8, 0u8, 0u8, 0u8, 0u8, 0u8, 67u8,
        97u8, 105u8, 114u8, 111u8, 95u8, 69u8, 120u8, 112u8, 97u8, 110u8, 100u8, 83u8, 101u8,
        101u8, 100u8,
    ];
    proof {
        assert(r@ =~= prf_expand_personalization());
    }
    r
}

} // verus!
