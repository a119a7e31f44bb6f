//! Points of the Stark elliptic curve, held in affine coordinates. Group
//! arithmetic is delegated to `starknet_types_core`; scalar multiplication and
//! point addition are named functions, since their values are the curve
//! group's and not restated here.
use vstd::prelude::*;

use crate::field::{stark_prime, Fe};
use starknet_curve::curve_params::GENERATOR;
use starknet_types_core::curve::{AffinePoint, ProjectivePoint};
use starknet_types_core::felt::Felt;

verus! {

/// The alpha parameter of the Stark curve equation y^2 = x^3 + alpha*x + beta.
pub open spec fn curve_alpha() -> nat {
    1
}

/// The beta parameter of the Stark curve equation y^2 = x^3 + alpha*x + beta.
pub open spec fn curve_beta() -> nat {
    0x6f21413efbe40de150e596d72f7a8c5609ad26c15c915c1f4cdfcb99cee9e89nat
}

/// The x coordinate of the curve's fixed generator point.
pub open spec fn generator_x() -> nat {
    0x1ef15c18599971b7beced415a40f0c7deacfd9b0d1819e03d723d8bc943cfcanat
}

/// The y coordinate of the curve's fixed generator point.
pub open spec fn generator_y() -> nat {
    0x5668060aa49730b7be4801df46ec62de53ecd11abe43a32873000c36e8dc1fnat
}

/// The coordinates satisfy the curve equation modulo the Stark prime.
pub open spec fn on_curve(x: nat, y: nat) -> bool {
    (y * y) % stark_prime() == (x * x * x + curve_alpha() * x + curve_beta()) % stark_prime()
}

/// The affine coordinates of `k` times the point `(px, py)`, or `None` where
/// that multiple is the group identity (which has no affine coordinates).
pub uninterp spec fn smul_of(k: nat, px: nat, py: nat) -> Option<(nat, nat)>;

/// The affine coordinates of the group sum of `(px, py)` and `(qx, qy)`, or
/// `None` where the sum is the group identity.
pub uninterp spec fn padd_of(px: nat, py: nat, qx: nat, qy: nat) -> Option<(nat, nat)>;

/// The even one of the two y coordinates the curve admits at `x` (the field
/// prime is odd, so exactly one of y and p - y is even), or `None` where the
/// curve equation has no root at `x`.
pub uninterp spec fn even_root_of(x: nat) -> Option<nat>;

/// A point of the Stark curve, in affine coordinates.
#[derive(Debug)]
pub struct Point {
    pub x: Fe,
    pub y: Fe,
}

impl Clone for Point {
    fn clone(&self) -> (r: Point)
        ensures
            r.x.bytes@ == self.x.bytes@,
            r.y.bytes@ == self.y.bytes@,
    {
        Point { x: self.x.clone(), y: self.y.clone() }
    }
}

impl Point {
    pub open spec fn wf(&self) -> bool {
        &&& self.x.wf()
        &&& self.y.wf()
        &&& on_curve(self.x.val(), self.y.val())
    }

    /// Builds a point from its coordinates, rejecting coordinates that do not
    /// satisfy the curve equation.
    pub fn new(x: Fe, y: Fe) -> (r: Option<Point>)
        requires
            x.wf(),
            y.wf(),
        ensures
            r.is_some() <==> on_curve(x.val(), y.val()),
            r matches Some(p) ==> p.wf() && p.x.bytes@ == x.bytes@ && p.y.bytes@ == y.bytes@,
    {
        pt_new(x, y)
    }

    /// The curve's fixed generator point.
    pub fn generator() -> (r: Point)
        ensures
            r.wf(),
            r.x.val() == generator_x(),
            r.y.val() == generator_y(),
    {
        pt_generator()
    }
}

/// Relies on `AffinePoint::new`, which accepts exactly the coordinate pairs
/// satisfying the curve equation.
#[verifier::external_body]
fn pt_new(x: Fe, y: Fe) -> (r: Option<Point>)
    requires
        x.wf(),
        y.wf(),
    ensures
        r.is_some() <==> on_curve(x.val(), y.val()),
        r matches Some(p) ==> p.wf() && p.x.bytes@ == x.bytes@ && p.y.bytes@ == y.bytes@,
{
    let fx = Felt::from_bytes_be(&x.bytes.as_slice().try_into().unwrap());
    let fy = Felt::from_bytes_be(&y.bytes.as_slice().try_into().unwrap());
    match AffinePoint::new(fx, fy) {
        Ok(_) => Some(Point { x, y }),
        Err(_) => None,
    }
}

/// Relies on the `GENERATOR` constant of `starknet_curve`, a valid point with
/// the documented coordinates.
#[verifier::external_body]
fn pt_generator() -> (r: Point)
    ensures
        r.wf(),
        r.x.val() == generator_x(),
        r.y.val() == generator_y(),
{
    Point {
        x: Fe { bytes: GENERATOR.x().to_bytes_be().to_vec() },
        y: Fe { bytes: GENERATOR.y().to_bytes_be().to_vec() },
    }
}

/// Relies on `ProjectivePoint` scalar multiplication by a `Felt`, which
/// multiplies by the scalar's integer value, and on `to_affine`, which fails
/// exactly on the group identity.
#[verifier::external_body]
pub(crate) fn pt_smul(k: &Fe, p: &Point) -> (r: Option<Point>)
    requires
        k.wf(),
        p.wf(),
    ensures
        r.is_some() <==> smul_of(k.val(), p.x.val(), p.y.val()).is_some(),
        r matches Some(q) ==> q.wf() && smul_of(k.val(), p.x.val(), p.y.val()) == Some(
            (q.x.val(), q.y.val()),
        ),
{
    let f = |v: &Fe| Felt::from_bytes_be(&v.bytes.as_slice().try_into().unwrap());
    let g = |c: Felt| Fe { bytes: c.to_bytes_be().to_vec() };
    let proj = match ProjectivePoint::from_affine(f(&p.x), f(&p.y)) {
        Ok(q) => q,
        Err(_) => return None,
    };
    match (&proj * f(k)).to_affine() {
        Ok(a) => Some(Point { x: g(a.x()), y: g(a.y()) }),
        Err(_) => None,
    }
}

/// Relies on `AffinePoint::new_from_x` with even parity: it solves the curve
/// equation at `x` and returns the root with even canonical value, or `None`
/// where the equation has no root there.
#[verifier::external_body]
pub(crate) fn pt_from_x_even(x: &Fe) -> (r: Option<Point>)
    requires
        x.wf(),
    ensures
        r.is_some() <==> even_root_of(x.val()).is_some(),
        r matches Some(q) ==> q.wf() && q.x.bytes@ == x.bytes@ && even_root_of(x.val()) == Some(
            q.y.val(),
        ) && q.y.val() % 2 == 0,
{
    let fx = Felt::from_bytes_be(&x.bytes.as_slice().try_into().unwrap());
    match AffinePoint::new_from_x(&fx, false) {
        Some(p) => Some(Point { x: x.clone(), y: Fe { bytes: p.y().to_bytes_be().to_vec() } }),
        None => None,
    }
}

/// Relies on `ProjectivePoint` group addition and on `to_affine`, which fails
/// exactly on the group identity.
#[verifier::external_body]
pub(crate) fn pt_add(p: &Point, q: &Point) -> (r: Option<Point>)
    requires
        p.wf(),
        q.wf(),
    ensures
        r.is_some() <==> padd_of(p.x.val(), p.y.val(), q.x.val(), q.y.val()).is_some(),
        r matches Some(s) ==> s.wf() && padd_of(p.x.val(), p.y.val(), q.x.val(), q.y.val())
            == Some((s.x.val(), s.y.val())),
{
    let f = |v: &Fe| Felt::from_bytes_be(&v.bytes.as_slice().try_into().unwrap());
    let g = |c: Felt| Fe { bytes: c.to_bytes_be().to_vec() };
    let pp = match ProjectivePoint::from_affine(f(&p.x), f(&p.y)) {
        Ok(v) => v,
        Err(_) => return None,
    };
    let qp = match ProjectivePoint::from_affine(f(&q.x), f(&q.y)) {
        Ok(v) => v,
        Err(_) => return None,
    };
    match (&pp + &qp).to_affine() {
        Ok(a) => Some(Point { x: g(a.x()), y: g(a.y()) }),
        Err(_) => None,
    }
}

} // verus!
