//! The binding-signature engine: per-resource blinding scalars are summed as
//! unbounded integers and reduced modulo the curve order into one signing
//! key; the matching public key shares are summed as curve points into one
//! verification key. A signature over the Poseidon digest of the
//! transaction's messages then proves that the shares sum correctly, without
//! revealing them.
use vstd::prelude::*;

use crate::curve::{
    even_root_of, generator_x, generator_y, on_curve, padd_of, pt_add, pt_from_x_even, pt_smul,
    smul_of, Point,
};
use crate::errors::{CairoBindingSigError, CairoBindingSigVerifyError, CairoSignError};
use crate::field::{
    be_val, ec_order, ec_order_be, lemma_fe_eq_is_val_eq, stark_prime, sub_bytes, Fe,
};
use crate::hashing::{digest_of, message_digest, random_bytes32, views_of};
use num_integer::Integer;
use starknet_curve::curve_params::EC_ORDER;
use starknet_types_core::felt::Felt;

verus! {

/// The sum, as unbounded integers, of the big-endian values of the 32-byte
/// chunks of a byte string (a shorter last chunk keeps its own width).
pub open spec fn chunks_sum(s: Seq<u8>) -> nat
    decreases s.len(),
{
    if s.len() == 0 {
        0
    } else if s.len() <= 32 {
        be_val(s)
    } else {
        be_val(s.take(32)) + chunks_sum(s.skip(32))
    }
}

/// The effective signing key of a concatenation of key-share scalars: the
/// shares are summed before any reduction, then reduced once modulo the curve
/// order, so the result does not depend on how the sum is grouped.
pub open spec fn signing_key_of(segments: Seq<u8>) -> nat {
    chunks_sum(segments) % ec_order()
}

/// The (r, s) pair the ECDSA sign primitive produces for a private key,
/// message digest, and nonce, or `None` where the primitive rejects them (a
/// zero nonce, an out-of-range digest, or a degenerate r or s).
pub uninterp spec fn sign_of(key: nat, digest: nat, k: nat) -> Option<(nat, nat)>;

/// What the ECDSA verify primitive answers for a public key x coordinate,
/// message digest and signature pair, or `None` where it rejects the inputs
/// (out-of-range digest, r or s, or an x coordinate on no curve point).
pub uninterp spec fn verify_of(pub_x: nat, digest: nat, r: nat, s: nat) -> Option<bool>;

/// The multiplicative inverse modulo the curve order, or `None` where none
/// exists.
pub uninterp spec fn inv_mod_order_of(s: nat) -> Option<nat>;

/// Whether the sum or the difference of two scalar multiples (given by their
/// affine coordinates, `None` standing for the group identity) can be the
/// group identity: both are the identity, or both have the same x coordinate
/// (two curve points sharing an x coordinate are negatives of one another).
pub open spec fn combination_is_identity(a: Option<(nat, nat)>, b: Option<(nat, nat)>) -> bool {
    match (a, b) {
        (None, None) => true,
        (Some(p), Some(q)) => p.0 == q.0,
        _ => false,
    }
}

/// The inputs on which the ECDSA verify primitive combines two scalar
/// multiples into the group identity and aborts instead of answering: with w
/// the inverse of s modulo the curve order, zw*G and rw*Q coincide in their x
/// coordinate or are both the identity, where zw = digest*w, rw = r*w modulo
/// the order and Q is the curve point at the public key's x coordinate. (The
/// primitive's own root choice for Q is the even root or its negation; both
/// give every multiple the same x coordinate, so this predicate covers it.)
/// Verification screens these inputs out before the call and rejects them.
pub open spec fn verify_would_panic(px: nat, h: nat, rv: nat, sv: nat) -> bool {
    match inv_mod_order_of(sv) {
        None => false,
        Some(w) => match even_root_of(px) {
            None => false,
            Some(qy) => combination_is_identity(
                smul_of((h * w) % ec_order(), generator_x(), generator_y()),
                smul_of((rv * w) % ec_order(), px, qy),
            ),
        },
    }
}

/// The x coordinate field element encoded by the first half of a 64-byte
/// key-share group.
pub open spec fn seg_x(s: Seq<u8>) -> nat {
    be_val(s.take(32)) % stark_prime()
}

/// The y coordinate field element encoded by the second half of a 64-byte
/// key-share group.
pub open spec fn seg_y(s: Seq<u8>) -> nat {
    be_val(s.subrange(32, 64)) % stark_prime()
}

/// The aggregate public key after the first `i` key-share groups: the group
/// sum of their points, starting from the group identity. The outer `None`
/// stands for a group that is no curve point; the inner `None` for the
/// identity, which has no affine coordinates.
pub open spec fn agg_point(segs: Seq<Seq<u8>>, i: nat) -> Option<Option<(nat, nat)>>
    decreases i,
{
    if i == 0 {
        Some(None)
    } else {
        match agg_point(segs, (i - 1) as nat) {
            None => None,
            Some(acc) => {
                let sx = seg_x(segs[i - 1]);
                let sy = seg_y(segs[i - 1]);
                if !on_curve(sx, sy) {
                    None
                } else {
                    match acc {
                        None => Some(Some((sx, sy))),
                        Some(p) => Some(padd_of(p.0, p.1, sx, sy)),
                    }
                }
            },
        }
    }
}

/// What binding-signature verification returns: an input error where the
/// signature buffer is not 64 bytes, a key-share group is not 64 bytes (both
/// detected eagerly, before any arithmetic), a key-share group is no curve
/// point, or the aggregate is the group identity; a verification error where
/// the primitive rejects the digest or signature values, or where it could
/// not answer them (`verify_would_panic`); the primitive's boolean answer
/// otherwise.
pub open spec fn binding_verify_spec(
    segs: Seq<Seq<u8>>,
    msgs: Seq<Seq<u8>>,
    sig: Seq<u8>,
) -> Result<bool, CairoBindingSigVerifyError> {
    if sig.len() != 64 || exists|i: int| 0 <= i < segs.len() && (#[trigger] segs[i]).len() != 64 {
        Err(CairoBindingSigVerifyError::InputError)
    } else {
        match agg_point(segs, segs.len()) {
            None => Err(CairoBindingSigVerifyError::InputError),
            Some(None) => Err(CairoBindingSigVerifyError::InputError),
            Some(Some(p)) => {
                let rv = be_val(sig.take(32)) % stark_prime();
                let sv = be_val(sig.subrange(32, 64)) % stark_prime();
                if verify_would_panic(p.0, digest_of(msgs), rv, sv) {
                    Err(CairoBindingSigVerifyError::VerificationError)
                } else {
                    match verify_of(p.0, digest_of(msgs), rv, sv) {
                        None => Err(CairoBindingSigVerifyError::VerificationError),
                        Some(b) => Ok(b),
                    }
                }
            },
        }
    }
}

/// Relies on num_bigint's `BigInt` addition: the big-endian values of two
/// byte strings of any length, added as unbounded integers.
#[verifier::external_body]
fn big_add(a: &Vec<u8>, b: &Vec<u8>) -> (r: Vec<u8>)
    ensures
        be_val(r@) == be_val(a@) + be_val(b@),
{
    let av = num_bigint::BigInt::from_bytes_be(num_bigint::Sign::Plus, a.as_slice());
    let bv = num_bigint::BigInt::from_bytes_be(num_bigint::Sign::Plus, b.as_slice());
    let (_, out) = (av + bv).to_bytes_be();
    out
}

/// Relies on num_integer's `mod_floor` on num_bigint values: the big-endian
/// value of a byte string reduced modulo the curve order, written back as 32
/// big-endian bytes.
#[verifier::external_body]
fn big_mod_order(a: &Vec<u8>) -> (r: Vec<u8>)
    ensures
        r@.len() == 32,
        be_val(r@) == be_val(a@) % ec_order(),
{
    let order = num_bigint::BigInt::from_bytes_be(num_bigint::Sign::Plus, &EC_ORDER.to_bytes_be());
    let av = num_bigint::BigInt::from_bytes_be(num_bigint::Sign::Plus, a.as_slice());
    let (_, buffer) = av.mod_floor(&order).to_bytes_be();
    let mut out = [0u8; 32];
    out[(32 - buffer.len())..].copy_from_slice(&buffer[..]);
    out.to_vec()
}

/// Appending one whole 32-byte chunk to a string of whole chunks adds its
/// value to the chunk sum.
proof fn lemma_chunks_sum_append32(t: Seq<u8>, c: Seq<u8>)
    requires
        t.len() % 32 == 0,
        c.len() == 32,
    ensures
        chunks_sum(t + c) == chunks_sum(t) + be_val(c),
    decreases t.len(),
{
    if t.len() == 0 {
        assert(t + c =~= c);
    } else {
        assert((t + c).take(32) =~= t.take(32));
        assert((t + c).skip(32) =~= t.skip(32) + c);
        assert(t.skip(32).len() % 32 == 0);
        lemma_chunks_sum_append32(t.skip(32), c);
        if t.len() == 32 {
            assert(t.take(32) =~= t);
            assert(t.skip(32) =~= Seq::<u8>::empty());
        }
        assert(chunks_sum(t) == be_val(t.take(32)) + chunks_sum(t.skip(32)));
    }
}

/// Sums the 32-byte key-share chunks as unbounded integers and reduces the
/// sum once modulo the curve order, as 32 big-endian bytes.
fn sum_key_segments_mod_order(segments: &Vec<u8>) -> (r: Vec<u8>)
    requires
        segments@.len() % 32 == 0,
    ensures
        r@.len() == 32,
        be_val(r@) == chunks_sum(segments@) % ec_order(),
{
    let n: usize = segments.len();
    let mut acc: Vec<u8> = Vec::new();
    let mut i: usize = 0;
    proof {
        assert(segments@.take(0) =~= Seq::<u8>::empty());
    }
    while i < n
        invariant
            n == segments@.len(),
            n % 32 == 0,
            i <= n,
            i % 32 == 0,
            be_val(acc@) == chunks_sum(segments@.take(i as int)),
        decreases n - i,
    {
        let chunk = sub_bytes(segments, i, i + 32);
        let next = big_add(&acc, &chunk);
        proof {
            assert(segments@.take(i as int + 32) =~= segments@.take(i as int) + segments@.subrange(
                i as int,
                i as int + 32,
            ));
            lemma_chunks_sum_append32(
                segments@.take(i as int),
                segments@.subrange(i as int, i as int + 32),
            );
        }
        acc = next;
        i = i + 32;
    }
    proof {
        assert(segments@.take(n as int) =~= segments@);
    }
    big_mod_order(&acc)
}

/// Relies on `starknet_crypto::sign`: ECDSA over the Stark curve, a function
/// of the key, digest and nonce alone. The error message is the primitive's
/// own. A nonce equal to the curve order is the one nonzero value below the
/// field prime whose generator multiple is the group identity; the primitive
/// aborts on it, so it is left out here.
#[verifier::external_body]
fn ecdsa_sign(key: &Fe, digest: &Fe, k: &Fe) -> (r: Result<(Fe, Fe), String>)
    requires
        key.wf(),
        digest.wf(),
        k.wf(),
        k.val() != ec_order(),
    ensures
        r.is_ok() <==> sign_of(key.val(), digest.val(), k.val()).is_some(),
        r matches Ok(sig) ==> sig.0.wf() && sig.1.wf() && sign_of(key.val(), digest.val(), k.val())
            == Some((sig.0.val(), sig.1.val())),
{
    let fk = Felt::from_bytes_be(&key.bytes.as_slice().try_into().unwrap());
    let fd = Felt::from_bytes_be(&digest.bytes.as_slice().try_into().unwrap());
    let fn_ = Felt::from_bytes_be(&k.bytes.as_slice().try_into().unwrap());
    match starknet_crypto::sign(&fk, &fd, &fn_) {
        Ok(sig) => Ok((
            Fe { bytes: sig.r.to_bytes_be().to_vec() },
            Fe { bytes: sig.s.to_bytes_be().to_vec() },
        )),
        Err(e) => Err(e.to_string()),
    }
}

/// Relies on `starknet_crypto::verify`: ECDSA verification against a public
/// key given by its x coordinate, a function of its arguments alone. The
/// primitive aborts on the inputs of `verify_would_panic` (the affine form of
/// a group-identity combination has no coordinates), so those are left out
/// here; the caller screens them first.
#[verifier::external_body]
fn ecdsa_verify(pub_x: &Fe, digest: &Fe, r: &Fe, s: &Fe) -> (res: Option<bool>)
    requires
        pub_x.wf(),
        digest.wf(),
        r.wf(),
        s.wf(),
        !verify_would_panic(pub_x.val(), digest.val(), r.val(), s.val()),
    ensures
        res == verify_of(pub_x.val(), digest.val(), r.val(), s.val()),
{
    let fp = Felt::from_bytes_be(&pub_x.bytes.as_slice().try_into().unwrap());
    let fd = Felt::from_bytes_be(&digest.bytes.as_slice().try_into().unwrap());
    let fr = Felt::from_bytes_be(&r.bytes.as_slice().try_into().unwrap());
    let fs = Felt::from_bytes_be(&s.bytes.as_slice().try_into().unwrap());
    match starknet_crypto::verify(&fp, &fd, &fr, &fs) {
        Ok(b) => Some(b),
        Err(_) => None,
    }
}

/// Relies on num_bigint's `modinv`: the multiplicative inverse modulo the
/// curve order where one exists, written back as 32 big-endian bytes.
#[verifier::external_body]
fn inv_mod_order(s: &Fe) -> (r: Option<Fe>)
    requires
        s.wf(),
    ensures
        r.is_some() <==> inv_mod_order_of(s.val()).is_some(),
        r matches Some(w) ==> w.wf() && w.val() < ec_order() && (w.val() * s.val()) % ec_order()
            == 1 && inv_mod_order_of(s.val()) == Some(w.val()),
{
    let order = num_bigint::BigInt::from_bytes_be(num_bigint::Sign::Plus, &EC_ORDER.to_bytes_be());
    let sv = num_bigint::BigInt::from_bytes_be(num_bigint::Sign::Plus, s.bytes.as_slice());
    let w = sv.modinv(&order)?;
    let (_, buffer) = w.to_bytes_be();
    let mut out = [0u8; 32];
    out[(32 - buffer.len())..].copy_from_slice(&buffer[..]);
    Some(Fe { bytes: out.to_vec() })
}

/// Relies on num_bigint multiplication and num_integer's `mod_floor`: the
/// product modulo the curve order, written back as 32 big-endian bytes.
#[verifier::external_body]
fn mul_mod_order(a: &Fe, b: &Fe) -> (r: Fe)
    requires
        a.wf(),
        b.wf(),
    ensures
        r.wf(),
        r.val() == (a.val() * b.val()) % ec_order(),
{
    let order = num_bigint::BigInt::from_bytes_be(num_bigint::Sign::Plus, &EC_ORDER.to_bytes_be());
    let av = num_bigint::BigInt::from_bytes_be(num_bigint::Sign::Plus, a.bytes.as_slice());
    let bv = num_bigint::BigInt::from_bytes_be(num_bigint::Sign::Plus, b.bytes.as_slice());
    let m = (av * bv).mod_floor(&order);
    let (_, buffer) = m.to_bytes_be();
    let mut out = [0u8; 32];
    out[(32 - buffer.len())..].copy_from_slice(&buffer[..]);
    Fe { bytes: out.to_vec() }
}

/// Derives the public key matching a binding-signature private key: the
/// private scalar times the generator, as 64 bytes (x then y, big-endian).
/// Fails only where that multiple is the group identity.
pub fn cairo_get_binding_sig_public_key(priv_key: &Vec<u8>) -> (r: Result<
    Vec<u8>,
    CairoBindingSigError,
>)
    ensures
        r.is_ok() <==> smul_of(
            be_val(priv_key@) % stark_prime(),
            generator_x(),
            generator_y(),
        ).is_some(),
        r matches Ok(bytes) ==> bytes@.len() == 64 && smul_of(
            be_val(priv_key@) % stark_prime(),
            generator_x(),
            generator_y(),
        ) == Some((be_val(bytes@.take(32)), be_val(bytes@.subrange(32, 64)))),
        r matches Err(e) ==> e == CairoBindingSigError::KeyGenerationError,
{
    let priv_key_fe = Fe::from_bytes_slice(priv_key);
    let generator = Point::generator();
    match pt_smul(&priv_key_fe, &generator) {
        Some(pub_key) => {
            let mut ret = pub_key.x.to_bytes();
            let mut y = pub_key.y.to_bytes();
            ret.append(&mut y);
            proof {
                assert(ret@.take(32) =~= pub_key.x.bytes@);
                assert(ret@.subrange(32, 64) =~= pub_key.y.bytes@);
            }
            Ok(ret)
        },
        None => Err(CairoBindingSigError::KeyGenerationError),
    }
}

/// Signs the digest of `messages` with the key aggregated from
/// `private_key_segments`, under a given ECDSA nonce, and serializes the
/// signature as r (32 bytes) followed by s (32 bytes), big-endian. A nonce
/// equal to the curve order cannot be used (its generator multiple is the
/// group identity) and is answered with the generation error.
pub fn binding_sig_sign_with_k(
    private_key_segments: &Vec<u8>,
    messages: &Vec<Vec<u8>>,
    k: &Fe,
) -> (r: Result<Vec<u8>, CairoSignError>)
    requires
        forall|i: int| 0 <= i < messages@.len() ==> (#[trigger] messages@[i])@.len() == 32,
        k.wf(),
        private_key_segments@.len() % 32 == 0,
    ensures
        r.is_ok() <==> (k.val() != ec_order() && sign_of(
            signing_key_of(private_key_segments@),
            digest_of(views_of(messages@)),
            k.val(),
        ).is_some()),
        r matches Ok(sig) ==> sig@.len() == 64 && sign_of(
            signing_key_of(private_key_segments@),
            digest_of(views_of(messages@)),
            k.val(),
        ) == Some((be_val(sig@.take(32)), be_val(sig@.subrange(32, 64)))),
{
    let order_fe = Fe { bytes: ec_order_be() };
    proof {
        lemma_fe_eq_is_val_eq(*k, order_fe);
    }
    if *k == order_fe {
        return Err(
            CairoSignError::SignatureGenerationError(
                "the signing nonce equals the curve order".to_string(),
            ),
        );
    }
    let key_bytes = sum_key_segments_mod_order(private_key_segments);
    let private_key = Fe::from_bytes(&key_bytes);
    proof {
        vstd::arithmetic::div_mod::lemma_small_mod(
            signing_key_of(private_key_segments@),
            stark_prime(),
        );
    }
    let sig_hash = message_digest(messages);
    match ecdsa_sign(&private_key, &sig_hash, k) {
        Ok((sig_r, sig_s)) => {
            let mut ret = sig_r.to_bytes();
            let mut s = sig_s.to_bytes();
            ret.append(&mut s);
            proof {
                assert(ret@.take(32) =~= sig_r.bytes@);
                assert(ret@.subrange(32, 64) =~= sig_s.bytes@);
            }
            Ok(ret)
        },
        Err(e) => Err(CairoSignError::SignatureGenerationError(e)),
    }
}

/// Signs the digest of `messages` with the key aggregated from
/// `private_key_segments`, drawing a fresh random ECDSA nonce for this call,
/// as nonce reuse across calls would leak the key.
pub fn cairo_binding_sig_sign(private_key_segments: &Vec<u8>, messages: &Vec<Vec<u8>>) -> (r:
    Result<Vec<u8>, CairoSignError>)
    requires
        forall|i: int| 0 <= i < messages@.len() ==> (#[trigger] messages@[i])@.len() == 32,
        private_key_segments@.len() % 32 == 0,
    ensures
        r matches Ok(sig) ==> sig@.len() == 64 && exists|k: nat|
            sign_of(signing_key_of(private_key_segments@), digest_of(views_of(messages@)), k)
                == Some((be_val(sig@.take(32)), be_val(sig@.subrange(32, 64)))),
        r.is_err() ==> exists|k: nat|
            k == ec_order() || sign_of(
                signing_key_of(private_key_segments@),
                digest_of(views_of(messages@)),
                k,
            ).is_none(),
{
    let raw = random_bytes32();
    let k = Fe::from_bytes(&raw);
    let r = binding_sig_sign_with_k(private_key_segments, messages, &k);
    proof {
        let kv = k.val();
        let skey = signing_key_of(private_key_segments@);
        let dg = digest_of(views_of(messages@));
        if r.is_ok() {
            assert(sign_of(skey, dg, kv).is_some());
        } else {
            assert(kv == ec_order() || sign_of(skey, dg, kv).is_none());
            assert(exists|k2: nat| k2 == ec_order() || sign_of(skey, dg, k2).is_none());
        }
    }
    r
}

/// Once the aggregation of the key-share points has failed (a group that is
/// no curve point), it stays failed however many groups follow.
proof fn lemma_agg_none_propagates(segs: Seq<Seq<u8>>, i: nat, j: nat)
    requires
        i <= j,
        agg_point(segs, i).is_none(),
    ensures
        agg_point(segs, j).is_none(),
    decreases j - i,
{
    if j > i {
        lemma_agg_none_propagates(segs, i, (j - 1) as nat);
    }
}

/// Verifies a binding signature: checks the buffer widths eagerly, sums the
/// key-share points into the aggregate public key, recomputes the message
/// digest, and asks the ECDSA primitive whether the (r, s) pair signs that
/// digest under the aggregate key's x coordinate. Inputs whose combined
/// points the primitive cannot answer (`verify_would_panic`) are screened
/// out first and rejected with the verification error.
pub fn cairo_binding_sig_verify(
    pub_key_segments: &Vec<Vec<u8>>,
    messages: &Vec<Vec<u8>>,
    signature: &Vec<u8>,
) -> (res: Result<bool, CairoBindingSigVerifyError>)
    requires
        forall|i: int| 0 <= i < messages@.len() ==> (#[trigger] messages@[i])@.len() == 32,
    ensures
        res == binding_verify_spec(views_of(pub_key_segments@), views_of(messages@), signature@),
{
    let ghost segs = views_of(pub_key_segments@);
    let n: usize = pub_key_segments.len();
    if signature.len() != 64 {
        return Err(CairoBindingSigVerifyError::InputError);
    }
    let mut i: usize = 0;
    while i < n
        invariant
            n == pub_key_segments@.len(),
            i <= n,
            segs == views_of(pub_key_segments@),
            forall|j: int| 0 <= j < i ==> (#[trigger] pub_key_segments@[j])@.len() == 64,
        decreases n - i,
    {
        if pub_key_segments[i].len() != 64 {
            proof {
                assert(segs[i as int].len() != 64);
            }
            return Err(CairoBindingSigVerifyError::InputError);
        }
        i = i + 1;
    }
    proof {
        assert(forall|j: int| 0 <= j < segs.len() ==> (#[trigger] segs[j]).len() == 64);
    }
    let mut acc: Option<Point> = None;
    let mut i: usize = 0;
    while i < n
        invariant
            n == pub_key_segments@.len(),
            i <= n,
            segs == views_of(pub_key_segments@),
            forall|j: int| 0 <= j < n ==> (#[trigger] pub_key_segments@[j])@.len() == 64,
            match acc {
                None => agg_point(segs, i as nat) == Some(Option::<(nat, nat)>::None),
                Some(p) => p.wf() && agg_point(segs, i as nat) == Some(
                    Some((p.x.val(), p.y.val())),
                ),
            },
        decreases n - i,
    {
        let seg = &pub_key_segments[i];
        let xb = sub_bytes(seg, 0, 32);
        let yb = sub_bytes(seg, 32, 64);
        let key_x = Fe::from_bytes(&xb);
        let key_y = Fe::from_bytes(&yb);
        proof {
            assert(seg@.take(32) =~= seg@.subrange(0, 32));
        }
        match Point::new(key_x, key_y) {
            None => {
                proof {
                    assert(agg_point(segs, (i + 1) as nat).is_none());
                    lemma_agg_none_propagates(segs, (i + 1) as nat, segs.len());
                }
                return Err(CairoBindingSigVerifyError::InputError);
            },
            Some(key_segment_point) => {
                acc = match acc {
                    None => Some(key_segment_point),
                    Some(prev) => pt_add(&prev, &key_segment_point),
                };
            },
        }
        i = i + 1;
    }
    match acc {
        None => Err(CairoBindingSigVerifyError::InputError),
        Some(aggregate) => {
            let msg_fe = message_digest(messages);
            let rb = sub_bytes(signature, 0, 32);
            let sb = sub_bytes(signature, 32, 64);
            let sig_r = Fe::from_bytes(&rb);
            let sig_s = Fe::from_bytes(&sb);
            proof {
                assert(signature@.take(32) =~= signature@.subrange(0, 32));
            }
            let ghost px = aggregate.x.val();
            let ghost h = msg_fe.val();
            let degenerate: bool = match inv_mod_order(&sig_s) {
                None => false,
                Some(w) => {
                    let zw = mul_mod_order(&msg_fe, &w);
                    let rw = mul_mod_order(&sig_r, &w);
                    match pt_from_x_even(&aggregate.x) {
                        None => false,
                        Some(q) => {
                            let generator = Point::generator();
                            let zg = pt_smul(&zw, &generator);
                            let rq = pt_smul(&rw, &q);
                            match (zg, rq) {
                                (None, None) => true,
                                (Some(a), Some(b)) => {
                                    proof {
                                        lemma_fe_eq_is_val_eq(a.x, b.x);
                                    }
                                    a.x == b.x
                                },
                                _ => false,
                            }
                        },
                    }
                },
            };
            proof {
                assert(degenerate == verify_would_panic(px, h, sig_r.val(), sig_s.val()));
            }
            if degenerate {
                Err(CairoBindingSigVerifyError::VerificationError)
            } else {
                match ecdsa_verify(&aggregate.x, &msg_fe, &sig_r, &sig_s) {
                    Some(b) => Ok(b),
                    None => Err(CairoBindingSigVerifyError::VerificationError),
                }
            }
        },
    }
}

/// Signature aggregation additivity, on the key side: signing with the
/// concatenation of two 32-byte shares uses the same effective key as signing
/// with the single share that holds their sum modulo the curve order, so both
/// produce signatures over the same key for the same digest. (That the
/// matching point aggregate verifies them rests on the curve group and is
/// exercised by tests.)
pub proof fn lemma_share_aggregation_additive(a: Seq<u8>, b: Seq<u8>, c: Seq<u8>)
    requires
        a.len() == 32,
        b.len() == 32,
        c.len() == 32,
        be_val(c) == (be_val(a) + be_val(b)) % ec_order(),
    ensures
        signing_key_of(a + b) == signing_key_of(c),
{
    let ab = a + b;
    assert(ab.len() == 64);
    assert(ab.take(32) =~= a);
    assert(ab.skip(32) =~= b);
    assert(chunks_sum(ab) == be_val(ab.take(32)) + chunks_sum(ab.skip(32)));
    assert(chunks_sum(ab.skip(32)) == be_val(b));
    assert(chunks_sum(ab) == be_val(a) + be_val(b));
    vstd::arithmetic::div_mod::lemma_mod_twice((be_val(a) + be_val(b)) as int, ec_order() as int);
}

} // verus!
