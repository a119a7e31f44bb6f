//! Field elements of the Stark prime field, held as their canonical 32-byte
//! big-endian encoding. All arithmetic is delegated to `starknet_types_core`;
//! the contracts state the results over the mathematical value of the bytes.
use vstd::prelude::*;

use starknet_types_core::felt::Felt;

verus! {

/// The integer value of a big-endian byte string.
pub open spec fn be_val(s: Seq<u8>) -> nat
    decreases s.len(),
{
    if s.len() == 0 {
        0
    } else {
        be_val(s.drop_last()) * 256 + (s.last() as nat)
    }
}

/// The Stark prime: 2^251 + 17 * 2^192 + 1.
pub open spec fn stark_prime() -> nat {
    0x800000000000011000000000000000000000000000000000000000000000001nat
}

/// The order of the Stark curve group (the ECDSA scalar modulus).
pub open spec fn ec_order() -> nat {
    0x800000000000010ffffffffffffffffb781126dcae7b2321e66a241adc64d2fnat
}

/// The canonical 32-byte big-endian encoding of the curve order.
pub open spec fn ec_order_bytes() -> Seq<u8> {
    seq![
        0x08u8, 0x00u8, 0x00u8, 0x00u8, 0x00u8, 0x00u8, 0x00u8, 0x10u8, 0xffu8, 0xffu8, 0xffu8,
        0xffu8, 0xffu8, 0xffu8, 0xffu8, 0xffu8, 0xb7u8, 0x81u8, 0x12u8, 0x6du8, 0xcau8, 0xe7u8,
        0xb2u8, 0x32u8, 0x1eu8, 0x66u8, 0xa2u8, 0x41u8, 0xadu8, 0xc6u8, 0x4du8, 0x2fu8,
    ]
}

/// The 32 bytes of `ec_order_bytes()` encode exactly the curve order.
pub proof fn lemma_ec_order_bytes_val()
    ensures
        be_val(ec_order_bytes()) == ec_order(),
{
    reveal_with_fuel(be_val, 33);
}

/// The curve order as 32 big-endian bytes.
pub fn ec_order_be() -> (r: Vec<u8>)
    ensures
        r@ == ec_order_bytes(),
        r@.len() == 32,
        be_val(r@) == ec_order(),
{
    let r: Vec<u8> = vec![
        0x08u8, 0x00u8, 0x00u8, 0x00u8, 0x00u8, 0x00u8, 0x00u8, 0x10u8, 0xffu8, 0xffu8, 0xffu8,
        0xffu8, 0xffu8, 0xffu8, 0xffu8, 0xffu8, 0xb7u8, 0x81u8, 0x12u8, 0x6du8, 0xcau8, 0xe7u8,
        0xb2u8, 0x32u8, 0x1eu8, 0x66u8, 0xa2u8, 0x41u8, 0xadu8, 0xc6u8, 0x4du8, 0x2fu8,
    ];
    proof {
        assert(r@ =~= ec_order_bytes());
        lemma_ec_order_bytes_val();
    }
    r
}

/// An element of the Stark prime field.
///
/// Well-formed values hold exactly 32 big-endian bytes encoding an integer
/// below the Stark prime, which is the canonical encoding the outside crate
/// produces.
#[derive(Debug)]
pub struct Fe {
    pub bytes: Vec<u8>,
}

impl Clone for Fe {
    fn clone(&self) -> (r: Fe)
        ensures
            r.bytes@ == self.bytes@,
    {
        Fe { bytes: self.bytes.clone() }
    }
}

impl Fe {
    /// The integer this element stands for.
    pub open spec fn val(&self) -> nat {
        be_val(self.bytes@)
    }

    pub open spec fn wf(&self) -> bool {
        &&& self.bytes@.len() == 32
        &&& self.val() < stark_prime()
    }

    /// Reads a field element from exactly 32 big-endian bytes, reducing the
    /// value modulo the Stark prime.
    pub fn from_bytes(bytes: &Vec<u8>) -> (r: Fe)
        requires
            bytes@.len() == 32,
        ensures
            r.wf(),
            r.val() == be_val(bytes@) % stark_prime(),
    {
        fe_from_bytes_be(bytes)
    }

    /// Reads a field element from a big-endian byte string of any length,
    /// reducing the value modulo the Stark prime.
    pub fn from_bytes_slice(bytes: &Vec<u8>) -> (r: Fe)
        ensures
            r.wf(),
            r.val() == be_val(bytes@) % stark_prime(),
    {
        fe_from_bytes_be_slice(bytes)
    }

    pub fn from_u64(v: u64) -> (r: Fe)
        ensures
            r.wf(),
            r.val() == v,
    {
        fe_from_u64(v)
    }

    /// The canonical 32-byte big-endian encoding.
    pub fn to_bytes(&self) -> (r: Vec<u8>)
        requires
            self.wf(),
        ensures
            r@ == self.bytes@,
            r@.len() == 32,
            be_val(r@) == self.val(),
    {
        self.bytes.clone()
    }
}

/// Equality of field elements is equality of their encodings; for well-formed
/// elements that coincides with equality of the values they stand for.
impl PartialEq for Fe {
    fn eq(&self, other: &Fe) -> (r: bool) {
        bytes_eq(&self.bytes, &other.bytes)
    }
}

impl vstd::std_specs::cmp::PartialEqSpecImpl for Fe {
    open spec fn obeys_eq_spec() -> bool {
        true
    }

    open spec fn eq_spec(&self, other: &Fe) -> bool {
        self.bytes@ == other.bytes@
    }
}

fn bytes_eq(a: &Vec<u8>, b: &Vec<u8>) -> (r: bool)
    ensures
        r <==> a@ == b@,
{
    if a.len() != b.len() {
        proof {
            assert(a@ != b@);
        }
        return false;
    }
    let n: usize = a.len();
    let mut i: usize = 0;
    while i < n
        invariant
            n == a@.len() == b@.len(),
            i <= n,
            forall|j: int| 0 <= j < i ==> a@[j] == b@[j],
        decreases n - i,
    {
        if a[i] != b[i] {
            return false;
        }
        i = i + 1;
    }
    proof {
        assert(a@ =~= b@);
    }
    true
}

/// A big-endian byte string of a given length encodes exactly one integer:
/// equal values mean equal bytes.
pub proof fn lemma_be_val_injective(a: Seq<u8>, b: Seq<u8>)
    requires
        a.len() == b.len(),
        be_val(a) == be_val(b),
    ensures
        a == b,
    decreases a.len(),
{
    if a.len() == 0 {
        assert(a =~= b);
    } else {
        let va = be_val(a.drop_last());
        let vb = be_val(b.drop_last());
        assert(va * 256 + (a.last() as nat) == vb * 256 + (b.last() as nat));
        assert(a.last() == b.last() && va == vb) by (nonlinear_arith)
            requires
                va * 256 + (a.last() as nat) == vb * 256 + (b.last() as nat),
                a.last() < 256,
                b.last() < 256,
        ;
        lemma_be_val_injective(a.drop_last(), b.drop_last());
        assert(a =~= a.drop_last().push(a.last()));
        assert(b =~= b.drop_last().push(b.last()));
    }
}

/// Two well-formed field elements are `==` exactly when they stand for the
/// same value.
pub proof fn lemma_fe_eq_is_val_eq(a: Fe, b: Fe)
    requires
        a.wf(),
        b.wf(),
    ensures
        a.bytes@ == b.bytes@ <==> a.val() == b.val(),
{
    if a.val() == b.val() {
        lemma_be_val_injective(a.bytes@, b.bytes@);
    }
}

/// Relies on `Felt::from_bytes_be` (big-endian decode modulo the Stark prime)
/// and `Felt::to_bytes_be` (canonical big-endian encode).
#[verifier::external_body]
fn fe_from_bytes_be(bytes: &Vec<u8>) -> (r: Fe)
    requires
        bytes@.len() == 32,
    ensures
        r.wf(),
        r.val() == be_val(bytes@) % stark_prime(),
{
    let arr: [u8; 32] = bytes.as_slice().try_into().unwrap();
    let f = Felt::from_bytes_be(&arr);
    Fe { bytes: f.to_bytes_be().to_vec() }
}

/// Relies on `Felt::from_bytes_be_slice`: all bytes are consumed as one
/// big-endian integer, reduced modulo the Stark prime.
#[verifier::external_body]
fn fe_from_bytes_be_slice(bytes: &Vec<u8>) -> (r: Fe)
    ensures
        r.wf(),
        r.val() == be_val(bytes@) % stark_prime(),
{
    let f = Felt::from_bytes_be_slice(bytes.as_slice());
    Fe { bytes: f.to_bytes_be().to_vec() }
}

/// Relies on `Felt::from`: a `u64` is below the Stark prime, so the value is
/// kept as is.
#[verifier::external_body]
fn fe_from_u64(v: u64) -> (r: Fe)
    ensures
        r.wf(),
        r.val() == v,
{
    let f = Felt::from(v);
    Fe { bytes: f.to_bytes_be().to_vec() }
}

/// Relies on `Felt` addition: field addition modulo the Stark prime.
#[verifier::external_body]
pub(crate) fn fe_add(a: &Fe, b: &Fe) -> (r: Fe)
    requires
        a.wf(),
        b.wf(),
    ensures
        r.wf(),
        r.val() == (a.val() + b.val()) % stark_prime(),
{
    let fa = Felt::from_bytes_be(&a.bytes.as_slice().try_into().unwrap());
    let fb = Felt::from_bytes_be(&b.bytes.as_slice().try_into().unwrap());
    Fe { bytes: (fa + fb).to_bytes_be().to_vec() }
}

/// Relies on `Felt` subtraction: field subtraction modulo the Stark prime.
#[verifier::external_body]
pub(crate) fn fe_sub(a: &Fe, b: &Fe) -> (r: Fe)
    requires
        a.wf(),
        b.wf(),
    ensures
        r.wf(),
        r.val() == (a.val() as int - b.val() as int) % (stark_prime() as int),
{
    let fa = Felt::from_bytes_be(&a.bytes.as_slice().try_into().unwrap());
    let fb = Felt::from_bytes_be(&b.bytes.as_slice().try_into().unwrap());
    Fe { bytes: (fa - fb).to_bytes_be().to_vec() }
}

/// Copies the bytes of `v` from `start` (inclusive) to `end` (exclusive).
pub(crate) fn sub_bytes(v: &Vec<u8>, start: usize, end: usize) -> (r: Vec<u8>)
    requires
        start <= end <= v@.len(),
    ensures
        r@ == v@.subrange(start as int, end as int),
{
    let mut r: Vec<u8> = Vec::new();
    let mut i: usize = start;
    while i < end
        invariant
            start <= i <= end <= v@.len(),
            r@.len() == i - start,
            forall|j: int| 0 <= j < r@.len() ==> r@[j] == v@[start + j],
        decreases end - i,
    {
        r.push(v[i]);
        i = i + 1;
    }
    proof {
        assert(r@ =~= v@.subrange(start as int, end as int));
    }
    r
}

} // verus!
