//! Authenticated encryption of fixed-width payloads: a Diffie-Hellman
//! exchange on the Stark curve seeds a Poseidon sponge, which is driven
//! forward as a keystream over exactly ten field elements; the final sponge
//! state authenticates the ciphertext as its MAC.
use vstd::prelude::*;

use crate::curve::{generator_x, generator_y, on_curve, pt_smul, smul_of, Point};
use crate::field::{fe_add, fe_sub, stark_prime, Fe};
use crate::hashing::{fe_vals, hash_many_fe, hash_pair_fe, poseidon2_of, poseidon_many_of};
use vstd::pervasive::unreached;

verus! {

/// Every plaintext is padded to exactly this many field elements, so that
/// ciphertexts are indistinguishable by length.
pub const PLAINTEXT_NUM: usize = 10;

/// Ciphertext index of the authentication tag.
pub const CIPHERTEXT_MAC: usize = 10;

/// Ciphertext index of the sender's public key x coordinate.
pub const CIPHERTEXT_PK_X: usize = 11;

/// Ciphertext index of the sender's public key y coordinate.
pub const CIPHERTEXT_PK_Y: usize = 12;

/// Ciphertext index of the encryption nonce.
pub const CIPHERTEXT_NONCE: usize = 13;

/// Number of field elements in a ciphertext.
pub const CIPHERTEXT_NUM: usize = 14;

/// A payload of exactly ten field elements.
#[derive(Debug)]
pub struct Plaintext {
    pub elems: Vec<Fe>,
}

/// An encrypted payload: ten encrypted elements, the MAC, the sender's public
/// key coordinates, and the nonce, in that fixed order.
#[derive(Debug)]
pub struct Ciphertext {
    pub elems: Vec<Fe>,
}

/// The shared symmetric key of one encryption or decryption: the curve point
/// reached by the Diffie-Hellman exchange. Derived per call, never persisted.
#[derive(Debug)]
pub struct SecretKey {
    pub point: Point,
}

/// A plaintext value sequence zero-padded on the right to ten elements.
pub open spec fn zero_padded(m: Seq<nat>) -> Seq<nat> {
    m + Seq::new((10 - m.len()) as nat, |i: int| 0nat)
}

/// The initial sponge state: the shared key coordinates, the nonce, and the
/// fixed plaintext width (which binds the width against length confusion).
pub open spec fn init_state(kx: nat, ky: nat, nonce: nat) -> nat {
    poseidon_many_of(seq![kx, ky, nonce, 10nat])
}

/// Subtraction modulo the Stark prime.
pub open spec fn sub_mod(a: nat, b: nat) -> nat {
    ((a as int - b as int) % (stark_prime() as int)) as nat
}

/// The sponge state of encryption after absorbing `i` plaintext elements of
/// `m`: each step adds the element into the state and hashes the sum forward
/// with the shared key's x coordinate.
pub open spec fn enc_state(h0: nat, kx: nat, m: Seq<nat>, i: nat) -> nat
    decreases i,
{
    if i == 0 {
        h0
    } else {
        poseidon2_of((enc_state(h0, kx, m, (i - 1) as nat) + m[i - 1]) % stark_prime(), kx)
    }
}

/// Ciphertext element `i`: the sponge state with plaintext element `i` added.
pub open spec fn cipher_elem(h0: nat, kx: nat, m: Seq<nat>, i: int) -> nat {
    (enc_state(h0, kx, m, i as nat) + m[i]) % stark_prime()
}

/// The sponge state of decryption before recovering element `i`: driven
/// forward from the ciphertext elements themselves.
pub open spec fn dec_state(h0: nat, kx: nat, c: Seq<nat>, i: nat) -> nat {
    if i == 0 {
        h0
    } else {
        poseidon2_of(c[i - 1], kx)
    }
}

/// Plaintext element `i` as decryption recovers it.
pub open spec fn recovered_elem(h0: nat, kx: nat, c: Seq<nat>, i: int) -> nat {
    sub_mod(c[i], dec_state(h0, kx, c, i as nat))
}

/// The value sequence of a ciphertext built from padded plaintext values `m`,
/// shared key coordinates `(kx, ky)`, sender public key `(epkx, epky)` and
/// nonce: ten encrypted elements, the final state as MAC, the sender's public
/// key coordinates, and the nonce.
pub open spec fn encrypt_vals(
    m: Seq<nat>,
    kx: nat,
    ky: nat,
    epkx: nat,
    epky: nat,
    nonce: nat,
) -> Seq<nat> {
    let h0 = init_state(kx, ky, nonce);
    Seq::new(10, |i: int| cipher_elem(h0, kx, m, i)) + seq![
        enc_state(h0, kx, m, 10),
        epkx,
        epky,
        nonce,
    ]
}

/// What decryption of the value sequence `c` under the private scalar `sk`
/// returns: the authentication-failure result (`None`) on any ciphertext that
/// is not 14 elements, whose embedded public key coordinates are not a curve
/// point, or whose recomputed MAC differs from the stored one; the recovered
/// ten elements otherwise. `None` also stands for the exchange whose shared
/// point is the group identity, which has no coordinates to seed the sponge.
pub open spec fn decrypt_spec(c: Seq<nat>, sk: nat) -> Option<Seq<nat>> {
    if c.len() != 14 {
        None
    } else if !on_curve(c[11], c[12]) {
        None
    } else {
        match smul_of(sk, c[11], c[12]) {
            None => None,
            Some(key) => {
                let h0 = init_state(key.0, key.1, c[13]);
                if dec_state(h0, key.0, c, 10) == c[10] {
                    Some(Seq::new(10, |i: int| recovered_elem(h0, key.0, c, i)))
                } else {
                    None
                }
            },
        }
    }
}

impl Plaintext {
    pub open spec fn wf(&self) -> bool {
        &&& self.elems@.len() == 10
        &&& forall|i: int| 0 <= i < 10 ==> (#[trigger] self.elems@[i]).wf()
    }

    pub fn inner(&self) -> (r: &Vec<Fe>)
        ensures
            r@ == self.elems@,
    {
        &self.elems
    }

    pub fn to_vec(&self) -> (r: Vec<Fe>)
        ensures
            r@.len() == self.elems@.len(),
            forall|i: int| 0 <= i < r@.len() ==> (#[trigger] r@[i]).bytes@ == self.elems@[i].bytes@,
    {
        clone_fe_vec(&self.elems)
    }

    /// Zero-pads a payload of at most ten elements on the right to exactly
    /// ten.
    pub fn padding(msg: &Vec<Fe>) -> (r: Plaintext)
        requires
            msg@.len() <= 10,
            forall|i: int| 0 <= i < msg@.len() ==> (#[trigger] msg@[i]).wf(),
        ensures
            r.wf(),
            fe_vals(r.elems@) == zero_padded(fe_vals(msg@)),
            forall|i: int| 0 <= i < msg@.len() ==> (#[trigger] r.elems@[i]).bytes@
                == msg@[i].bytes@,
    {
        let mut elems = clone_fe_vec(msg);
        while elems.len() < PLAINTEXT_NUM
            invariant
                msg@.len() <= elems@.len() <= 10,
                forall|i: int| 0 <= i < msg@.len() ==> (#[trigger] elems@[i]).bytes@
                    == msg@[i].bytes@,
                forall|i: int| 0 <= i < elems@.len() ==> (#[trigger] elems@[i]).wf(),
                forall|i: int| msg@.len() <= i < elems@.len() ==> (#[trigger] elems@[i]).val()
                    == 0,
            decreases 10 - elems@.len(),
        {
            elems.push(Fe::from_u64(0));
        }
        let r = Plaintext { elems };
        proof {
            assert(fe_vals(r.elems@) =~= zero_padded(fe_vals(msg@)));
        }
        r
    }
}

/// Copies a vector of field elements, keeping each element's bytes.
fn clone_fe_vec(v: &Vec<Fe>) -> (r: Vec<Fe>)
    ensures
        r@.len() == v@.len(),
        forall|i: int| 0 <= i < v@.len() ==> (#[trigger] r@[i]).bytes@ == v@[i].bytes@,
{
    let mut r: Vec<Fe> = Vec::new();
    let n: usize = v.len();
    let mut i: usize = 0;
    while i < n
        invariant
            n == v@.len(),
            i <= n,
            r@.len() == i,
            forall|j: int| 0 <= j < i ==> (#[trigger] r@[j]).bytes@ == v@[j].bytes@,
        decreases n - i,
    {
        r.push(v[i].clone());
        i = i + 1;
    }
    r
}

impl SecretKey {
    pub open spec fn wf(&self) -> bool {
        self.point.wf()
    }

    /// Derives the shared symmetric key as `sk` times the partner's public
    /// key point.
    pub fn from_dh_exchange(pk: &Point, sk: &Fe) -> (r: SecretKey)
        requires
            pk.wf(),
            sk.wf(),
            smul_of(sk.val(), pk.x.val(), pk.y.val()).is_some(),
        ensures
            r.wf(),
            smul_of(sk.val(), pk.x.val(), pk.y.val()) == Some(
                (r.point.x.val(), r.point.y.val()),
            ),
    {
        match pt_smul(sk, pk) {
            Some(p) => SecretKey { point: p },
            None => unreached(),
        }
    }

    /// The affine coordinates of the shared key point.
    pub fn get_coordinates(&self) -> (r: (Fe, Fe))
        ensures
            r.0.bytes@ == self.point.x.bytes@,
            r.1.bytes@ == self.point.y.bytes@,
    {
        (self.point.x.clone(), self.point.y.clone())
    }
}

impl Ciphertext {
    pub open spec fn wf(&self) -> bool {
        forall|i: int| 0 <= i < self.elems@.len() ==> (#[trigger] self.elems@[i]).wf()
    }

    /// The values of the ciphertext elements.
    pub open spec fn vals(&self) -> Seq<nat> {
        fe_vals(self.elems@)
    }

    pub fn inner(&self) -> (r: &Vec<Fe>)
        ensures
            r@ == self.elems@,
    {
        &self.elems
    }

    /// Wraps a vector of field elements as a ciphertext without checking its
    /// length; decryption rejects any length other than 14.
    pub fn from_vec(elems: Vec<Fe>) -> (r: Ciphertext)
        ensures
            r.elems@ == elems@,
    {
        Ciphertext { elems }
    }

    /// Encrypts a payload of at most ten field elements for the holder of the
    /// private key matching `pk`, under the sender's private scalar `sk` and a
    /// caller-supplied nonce (which must be fresh per key pair; reuse is not
    /// rejected). The Diffie-Hellman exchanges are required not to reach the
    /// group identity; `try_encrypt` checks that instead of requiring it. The
    /// embedded sender public key is a curve point, as decryption expects.
    pub fn encrypt(messages: &Vec<Fe>, pk: &Point, sk: &Fe, encrypt_nonce: &Fe) -> (r: Ciphertext)
        requires
            messages@.len() <= 10,
            forall|i: int| 0 <= i < messages@.len() ==> (#[trigger] messages@[i]).wf(),
            pk.wf(),
            sk.wf(),
            encrypt_nonce.wf(),
            smul_of(sk.val(), pk.x.val(), pk.y.val()).is_some(),
            smul_of(sk.val(), generator_x(), generator_y()).is_some(),
        ensures
            r.wf(),
            r.elems@.len() == 14,
            (smul_of(sk.val(), pk.x.val(), pk.y.val()) matches Some(k) && (smul_of(
                sk.val(),
                generator_x(),
                generator_y(),
            ) matches Some(e) && r.vals() == encrypt_vals(
                zero_padded(fe_vals(messages@)),
                k.0,
                k.1,
                e.0,
                e.1,
                encrypt_nonce.val(),
            ))),
            smul_of(sk.val(), generator_x(), generator_y()) matches Some(e) ==> on_curve(
                e.0,
                e.1,
            ),
    {
        let secret_key = SecretKey::from_dh_exchange(pk, sk);
        let (secret_key_x, secret_key_y) = secret_key.get_coordinates();
        let plaintext = Plaintext::padding(messages);
        let ghost mvals = zero_padded(fe_vals(messages@));
        let ghost kxv = secret_key_x.val();
        let ghost h0 = init_state(secret_key_x.val(), secret_key_y.val(), encrypt_nonce.val());

        let mut seed: Vec<Fe> = Vec::new();
        seed.push(secret_key_x.clone());
        seed.push(secret_key_y.clone());
        seed.push(encrypt_nonce.clone());
        seed.push(Fe::from_u64(10));
        let mut poseidon_state = hash_many_fe(&seed);
        proof {
            assert(fe_vals(seed@) =~= seq![
                secret_key_x.val(),
                secret_key_y.val(),
                encrypt_nonce.val(),
                10nat,
            ]);
        }

        let mut cipher: Vec<Fe> = Vec::new();
        let mut i: usize = 0;
        while i < 10
            invariant
                i <= 10,
                cipher@.len() == i,
                plaintext.wf(),
                fe_vals(plaintext.elems@) == mvals,
                secret_key_x.wf(),
                kxv == secret_key_x.val(),
                poseidon_state.wf(),
                poseidon_state.val() == enc_state(h0, kxv, mvals, i as nat),
                forall|j: int| 0 <= j < i ==> (#[trigger] cipher@[j]).wf() && cipher@[j].val()
                    == cipher_elem(h0, kxv, mvals, j),
            decreases 10 - i,
        {
            poseidon_state = fe_add(&poseidon_state, &plaintext.elems[i]);
            cipher.push(poseidon_state.clone());
            poseidon_state = hash_pair_fe(&poseidon_state, &secret_key_x);
            i = i + 1;
        }

        cipher.push(poseidon_state.clone());
        let generator = Point::generator();
        let sender_pk = match pt_smul(sk, &generator) {
            Some(p) => p,
            None => unreached(),
        };
        cipher.push(sender_pk.x.clone());
        cipher.push(sender_pk.y.clone());
        cipher.push(encrypt_nonce.clone());
        let r = Ciphertext { elems: cipher };
        proof {
            assert(r.vals() =~= encrypt_vals(
                mvals,
                kxv,
                secret_key_y.val(),
                sender_pk.x.val(),
                sender_pk.y.val(),
                encrypt_nonce.val(),
            ));
        }
        r
    }

    /// Encrypts as `encrypt` does, or returns `None` where one of the two
    /// Diffie-Hellman exchanges reaches the group identity and no shared key
    /// coordinates exist.
    pub fn try_encrypt(messages: &Vec<Fe>, pk: &Point, sk: &Fe, encrypt_nonce: &Fe) -> (r: Option<
        Ciphertext,
    >)
        requires
            messages@.len() <= 10,
            forall|i: int| 0 <= i < messages@.len() ==> (#[trigger] messages@[i]).wf(),
            pk.wf(),
            sk.wf(),
            encrypt_nonce.wf(),
        ensures
            r.is_some() <==> (smul_of(sk.val(), pk.x.val(), pk.y.val()).is_some() && smul_of(
                sk.val(),
                generator_x(),
                generator_y(),
            ).is_some()),
            r matches Some(c) ==> (c.wf() && c.elems@.len() == 14 && (smul_of(
                sk.val(),
                pk.x.val(),
                pk.y.val(),
            ) matches Some(k) && (smul_of(sk.val(), generator_x(), generator_y()) matches Some(e)
                && c.vals() == encrypt_vals(
                zero_padded(fe_vals(messages@)),
                k.0,
                k.1,
                e.0,
                e.1,
                encrypt_nonce.val(),
            )))),
            r.is_some() ==> (smul_of(sk.val(), generator_x(), generator_y()) matches Some(e)
                ==> on_curve(e.0, e.1)),
    {
        match pt_smul(sk, pk) {
            None => None,
            Some(_) => {
                let generator = Point::generator();
                match pt_smul(sk, &generator) {
                    None => None,
                    Some(_) => Some(Self::encrypt(messages, pk, sk, encrypt_nonce)),
                }
            },
        }
    }

    /// Decrypts under the recipient's private scalar, mirroring encryption:
    /// the sponge is reseeded from the embedded sender public key and nonce,
    /// each payload element is the ciphertext element minus the running
    /// state, and the result is returned only where the recomputed final
    /// state equals the stored MAC. Any ciphertext that is not 14 elements or
    /// whose embedded coordinates are not a curve point is rejected. The
    /// Diffie-Hellman exchange with a valid embedded key is required not to
    /// reach the group identity; `try_decrypt` checks that instead.
    ///
    /// The MAC comparison is a byte comparison that exits on the first
    /// differing byte, so it is not constant-time; interoperability pins the
    /// comparison's result, but a hardened deployment should substitute a
    /// constant-time equality here.
    pub fn decrypt(&self, sk: &Fe) -> (r: Option<Vec<Fe>>)
        requires
            self.wf(),
            sk.wf(),
            (self.elems@.len() == 14 && on_curve(self.elems@[11].val(), self.elems@[12].val()))
                ==> smul_of(sk.val(), self.elems@[11].val(), self.elems@[12].val()).is_some(),
        ensures
            r.is_some() <==> decrypt_spec(self.vals(), sk.val()).is_some(),
            r matches Some(v) ==> (decrypt_spec(self.vals(), sk.val()) matches Some(ms)
                && v@.len() == 10 && (forall|i: int|
                0 <= i < 10 ==> (#[trigger] v@[i]).wf()) && fe_vals(v@) == ms),
            self.elems@.len() != 14 ==> r.is_none(),
    {
        if self.elems.len() != CIPHERTEXT_NUM {
            return None;
        }
        let pk_x = self.elems[CIPHERTEXT_PK_X].clone();
        let pk_y = self.elems[CIPHERTEXT_PK_Y].clone();
        let encrypt_nonce = self.elems[CIPHERTEXT_NONCE].clone();
        let pk = match Point::new(pk_x, pk_y) {
            Some(p) => p,
            None => {
                return None;
            },
        };
        let secret_key = SecretKey::from_dh_exchange(&pk, sk);
        let (secret_key_x, secret_key_y) = secret_key.get_coordinates();
        let ghost kxv = secret_key_x.val();
        let ghost h0 = init_state(secret_key_x.val(), secret_key_y.val(), encrypt_nonce.val());

        let mut seed: Vec<Fe> = Vec::new();
        seed.push(secret_key_x.clone());
        seed.push(secret_key_y.clone());
        seed.push(encrypt_nonce.clone());
        seed.push(Fe::from_u64(10));
        let mut poseidon_state = hash_many_fe(&seed);
        proof {
            assert(fe_vals(seed@) =~= seq![
                secret_key_x.val(),
                secret_key_y.val(),
                encrypt_nonce.val(),
                10nat,
            ]);
        }

        let mut msg: Vec<Fe> = Vec::new();
        let mut i: usize = 0;
        while i < 10
            invariant
                i <= 10,
                msg@.len() == i,
                self.wf(),
                self.elems@.len() == 14,
                secret_key_x.wf(),
                kxv == secret_key_x.val(),
                poseidon_state.wf(),
                poseidon_state.val() == dec_state(h0, kxv, self.vals(), i as nat),
                forall|j: int| 0 <= j < i ==> (#[trigger] msg@[j]).wf() && msg@[j].val()
                    == recovered_elem(h0, kxv, self.vals(), j),
            decreases 10 - i,
        {
            let msg_elem = fe_sub(&self.elems[i], &poseidon_state);
            msg.push(msg_elem);
            poseidon_state = hash_pair_fe(&self.elems[i], &secret_key_x);
            i = i + 1;
        }

        proof {
            crate::field::lemma_fe_eq_is_val_eq(self.elems@[10], poseidon_state);
        }
        if self.elems[CIPHERTEXT_MAC] == poseidon_state {
            proof {
                let ghost spec_r = decrypt_spec(self.vals(), sk.val());
                assert(spec_r matches Some(ms) && fe_vals(msg@) =~= ms);
            }
            Some(msg)
        } else {
            None
        }
    }

    /// Decrypts as `decrypt` does, returning `None` also where the
    /// Diffie-Hellman exchange with the embedded sender key reaches the group
    /// identity and no shared key coordinates exist.
    pub fn try_decrypt(&self, sk: &Fe) -> (r: Option<Vec<Fe>>)
        requires
            self.wf(),
            sk.wf(),
        ensures
            r.is_some() <==> decrypt_spec(self.vals(), sk.val()).is_some(),
            r matches Some(v) ==> (decrypt_spec(self.vals(), sk.val()) matches Some(ms)
                && v@.len() == 10 && (forall|i: int|
                0 <= i < 10 ==> (#[trigger] v@[i]).wf()) && fe_vals(v@) == ms),
    {
        if self.elems.len() != CIPHERTEXT_NUM {
            return None;
        }
        let pk_x = self.elems[CIPHERTEXT_PK_X].clone();
        let pk_y = self.elems[CIPHERTEXT_PK_Y].clone();
        let pk = match Point::new(pk_x, pk_y) {
            Some(p) => p,
            None => {
                return None;
            },
        };
        match pt_smul(sk, &pk) {
            Some(_) => self.decrypt(sk),
            None => None,
        }
    }
}

/// Adding a value below the prime into the sponge state and subtracting the
/// same state again recovers the value, whatever the state.
proof fn lemma_sub_mod_cancel(h: nat, x: nat)
    requires
        x < stark_prime(),
    ensures
        sub_mod((h + x) % stark_prime(), h) == x,
{
    let p = stark_prime() as int;
    let hx = h + x;
    vstd::arithmetic::div_mod::lemma_sub_mod_noop(hx as int, h as int, p);
    vstd::arithmetic::div_mod::lemma_sub_mod_noop((hx % stark_prime()) as int, h as int, p);
    vstd::arithmetic::div_mod::lemma_mod_twice(hx as int, p);
    vstd::arithmetic::div_mod::lemma_small_mod(x, stark_prime());
    assert(hx as int - h as int == x as int);
}

/// Round trip: a ciphertext built from a zero-padded payload decrypts back to
/// that payload under any private scalar whose exchange with the embedded
/// sender public key reaches the same shared point that encryption used --
/// which the Diffie-Hellman group guarantees of matching key pairs, since
/// both exchanges compute the product of the same two scalars with the
/// generator.
pub proof fn lemma_encrypt_decrypt_round_trip(
    m: Seq<nat>,
    pkx: nat,
    pky: nat,
    esk: nat,
    dsk: nat,
    nonce: nat,
    kx: nat,
    ky: nat,
    ex: nat,
    ey: nat,
)
    requires
        m.len() <= 10,
        forall|i: int| 0 <= i < m.len() ==> m[i] < stark_prime(),
        smul_of(esk, pkx, pky) == Some((kx, ky)),
        smul_of(esk, generator_x(), generator_y()) == Some((ex, ey)),
        on_curve(ex, ey),
        smul_of(dsk, ex, ey) == Some((kx, ky)),
    ensures
        decrypt_spec(encrypt_vals(zero_padded(m), kx, ky, ex, ey, nonce), dsk) == Some(
            zero_padded(m),
        ),
{
    let p = stark_prime();
    let mv = zero_padded(m);
    let c = encrypt_vals(mv, kx, ky, ex, ey, nonce);
    let h0 = init_state(kx, ky, nonce);
    assert(c.len() == 14);
    assert(c[11] == ex && c[12] == ey && c[13] == nonce);
    assert(c[10] == enc_state(h0, kx, mv, 10));
    assert forall|i: nat| 1 <= i <= 10 implies dec_state(h0, kx, c, i) == enc_state(
        h0,
        kx,
        mv,
        i,
    ) by {
        assert(c[i - 1] == cipher_elem(h0, kx, mv, i - 1));
    }
    assert(dec_state(h0, kx, c, 10) == c[10]);
    assert forall|i: int| 0 <= i < 10 implies recovered_elem(h0, kx, c, i) == mv[i] by {
        assert(c[i] == cipher_elem(h0, kx, mv, i));
        if i == 0 {
            assert(dec_state(h0, kx, c, 0) == enc_state(h0, kx, mv, 0));
        } else {
            assert(dec_state(h0, kx, c, i as nat) == enc_state(h0, kx, mv, i as nat));
        }
        lemma_sub_mod_cancel(enc_state(h0, kx, mv, i as nat), mv[i]);
    }
    assert(Seq::new(10, |i: int| recovered_elem(h0, kx, c, i)) =~= mv);
}

/// Tamper sensitivity of the authentication tag: changing the MAC element of
/// a ciphertext that decrypts, while keeping the other thirteen elements,
/// makes decryption return the authentication failure. (The recomputed tag is
/// the hash of the last payload element and the shared key alone, since the
/// running state is reseeded from each ciphertext element; so the tag also
/// catches changes to those, through the hash, which is exercised by tests,
/// but a change to one of the first nine payload elements only changes the
/// recovered plaintext.)
pub proof fn lemma_tampered_mac_rejected(c1: Seq<nat>, c2: Seq<nat>, sk: nat)
    requires
        c1.len() == 14,
        c2.len() == 14,
        decrypt_spec(c1, sk).is_some(),
        c2[10] != c1[10],
        forall|i: int| 0 <= i < 14 && i != 10 ==> c1[i] == c2[i],
    ensures
        decrypt_spec(c2, sk).is_none(),
{
    assert(c2[11] == c1[11] && c2[12] == c1[12] && c2[13] == c1[13] && c2[9] == c1[9]);
}

/// Nonce separation, as far as it is structural: two encryptions of the same
/// payload under the same keys with different nonces give different
/// ciphertexts, since the nonce itself is embedded at the last position.
/// (That the encrypted payload positions differ as well rests on the hash and
/// is exercised by tests.)
pub proof fn lemma_distinct_nonces_distinct_ciphertexts(
    m: Seq<nat>,
    kx: nat,
    ky: nat,
    ex: nat,
    ey: nat,
    n1: nat,
    n2: nat,
)
    requires
        n1 != n2,
    ensures
        encrypt_vals(m, kx, ky, ex, ey, n1) != encrypt_vals(m, kx, ky, ex, ey, n2),
{
    assert(encrypt_vals(m, kx, ky, ex, ey, n1)[13] == n1);
    assert(encrypt_vals(m, kx, ky, ex, ey, n2)[13] == n2);
}

} // verus!
