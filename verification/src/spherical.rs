//! Points on the unit sphere, in exact symbolic coordinates.
//!
//! A [`Norm`] is a point of the unit sphere given by two symbolic angles in
//! the physics convention: the polar angle from the positive `z` axis and
//! the azimuthal angle from the initial `xz` meridian plane.  Points are
//! never mutated: every directional move or rotation returns a new point,
//! and the Cartesian projection is recomputed on demand as exact expression
//! trees.

use vstd::prelude::*;

use crate::val::Angle;
use crate::val::AngleView;
use crate::val::Val;
use crate::val::ValView;

verus! {

/// Normalised spherical coordinates (radius one), physics convention.
pub struct Norm {
    /// Polar angle, from the positive polar axis `z`, conceptually `[0, pi]`.
    theta: Angle,
    /// Azimuthal angle, from the initial meridian plane `xz`, conceptually
    /// `[0, 2 pi)`.
    phi: Angle,
}

/// The mathematical model of a [`Norm`]: its two angle trees.
pub ghost struct NormView {
    pub theta: AngleView,
    pub phi: AngleView,
}

impl View for Norm {
    type V = NormView;

    closed spec fn view(&self) -> NormView {
        NormView { theta: self.theta@, phi: self.phi@ }
    }
}

impl NormView {
    /// The point at the pole: both angles are the literal zero angle.
    pub open spec fn spec_zero() -> NormView {
        NormView { theta: AngleView::spec_zero(), phi: AngleView::spec_zero() }
    }

    /// What [`Norm::south`] returns: the angle is added to the polar angle,
    /// the azimuth is unchanged.
    pub open spec fn spec_south(self, a: AngleView) -> NormView {
        NormView { theta: self.theta.spec_add(a), phi: self.phi }
    }

    /// What [`Norm::north`] returns: a southward move by the negation.
    pub open spec fn spec_north(self, a: AngleView) -> NormView {
        self.spec_south(a.spec_neg())
    }

    /// What [`Norm::east`] returns: the angle is added to the azimuth, the
    /// polar angle is unchanged.
    pub open spec fn spec_east(self, a: AngleView) -> NormView {
        NormView { theta: self.theta, phi: self.phi.spec_add(a) }
    }

    /// What [`Norm::west`] returns: an eastward move by the negation.
    pub open spec fn spec_west(self, a: AngleView) -> NormView {
        self.spec_east(a.spec_neg())
    }

    /// The Cartesian `x` component: `sin(theta) * cos(phi)`.
    pub open spec fn spec_x(self) -> ValView {
        self.theta.spec_sin().spec_mul(self.phi.spec_cos())
    }

    /// The Cartesian `y` component: `sin(theta) * sin(phi)`.
    pub open spec fn spec_y(self) -> ValView {
        self.theta.spec_sin().spec_mul(self.phi.spec_sin())
    }

    /// The Cartesian `z` component: `cos(theta)`.
    pub open spec fn spec_z(self) -> ValView {
        self.theta.spec_cos()
    }

    /// What [`Norm::distance_to`] returns: the Euclidean distance between
    /// the two Cartesian projections, as an exact expression.
    pub open spec fn spec_distance_to(self, to: NormView) -> ValView {
        let dx = to.spec_x().spec_sub(self.spec_x()).spec_pow(ValView::Int(2));
        let dy = to.spec_y().spec_sub(self.spec_y()).spec_pow(ValView::Int(2));
        let dz = to.spec_z().spec_sub(self.spec_z()).spec_pow(ValView::Int(2));
        dx.spec_add(dy).spec_add(dz).spec_sqrt()
    }

    /// What [`Norm::rot_x`] returns: new polar and azimuthal angles derived
    /// through the spherical law of cosines.
    pub open spec fn spec_rot_x(self, by: AngleView) -> NormView {
        NormView {
            theta: self
                .theta
                .spec_sin()
                .spec_mul(self.phi.spec_sin())
                .spec_mul(by.spec_sin())
                .spec_add(self.theta.spec_cos().spec_mul(by.spec_cos()))
                .spec_acos(),
            phi: self
                .phi
                .spec_tan()
                .spec_mul(
                    by.spec_cos().spec_sub(
                        self
                            .phi
                            .spec_tan()
                            .spec_rec()
                            .spec_mul(by.spec_sin())
                            .spec_mul(self.phi.spec_cos().spec_rec()),
                    ),
                )
                .spec_atan(),
        }
    }

    /// The rotated vector components of [`NormView::spec_rot`], before the
    /// conversion back to polar and azimuthal angles: the point as a pure
    /// quaternion (with `z` negated to preserve the z-up axis), multiplied
    /// by the rotation quaternion on the left and by its inverse on the
    /// right.
    pub open spec fn spec_rot_parts(self, axis: NormView, by: AngleView) -> (
        ValView,
        ValView,
        ValView,
    ) {
        let p1 = self.spec_x();
        let p2 = self.spec_y();
        let p3 = self.spec_z().spec_neg();
        let s = by.spec_div(ValView::Int(2)).spec_sin();
        let q0 = by.spec_div(ValView::Int(2)).spec_cos();
        let q1 = axis.spec_x().spec_mul(s);
        let q2 = axis.spec_y().spec_mul(s);
        let q3 = axis.spec_z().spec_mul(s);
        let n0 = q0;
        let n1 = q1.spec_neg();
        let n2 = q2.spec_neg();
        let n3 = q3.spec_neg();
        let qp0 = q1.spec_mul(p1).spec_neg().spec_sub(q2.spec_mul(p2)).spec_sub(q3.spec_mul(p3));
        let qp1 = q0.spec_mul(p1).spec_sub(q2.spec_mul(p3)).spec_add(q3.spec_mul(p2));
        let qp2 = q0.spec_mul(p2).spec_add(q1.spec_mul(p3)).spec_sub(q3.spec_mul(p1));
        let qp3 = q0.spec_mul(p3).spec_sub(q1.spec_mul(p2)).spec_add(q2.spec_mul(p1));
        let r1 = qp0.spec_mul(n1).spec_add(qp1.spec_mul(n0)).spec_sub(qp2.spec_mul(n3)).spec_add(
            qp3.spec_mul(n2),
        );
        let r2 = qp0.spec_mul(n2).spec_add(qp1.spec_mul(n3)).spec_add(qp2.spec_mul(n0)).spec_sub(
            qp3.spec_mul(n1),
        );
        let r3 = qp0.spec_mul(n3).spec_add(qp1.spec_mul(n2)).spec_add(qp2.spec_mul(n1)).spec_sub(
            qp3.spec_mul(n0),
        );
        (r1, r2, r3)
    }

    /// The radial norm of the rotated vector, whose quotient with the third
    /// component yields the new polar angle.
    pub open spec fn spec_rot_radial(self, axis: NormView, by: AngleView) -> ValView {
        let (r1, r2, r3) = self.spec_rot_parts(axis, by);
        r1.spec_pow(ValView::Int(2)).spec_add(r2.spec_pow(ValView::Int(2))).spec_add(
            r3.spec_pow(ValView::Int(2)),
        ).spec_sqrt()
    }

    /// The planar norm of the rotated vector, whose quotient with the first
    /// component yields the new azimuthal angle.
    pub open spec fn spec_rot_planar(self, axis: NormView, by: AngleView) -> ValView {
        let (r1, r2, r3) = self.spec_rot_parts(axis, by);
        r1.spec_pow(ValView::Int(2)).spec_add(r2.spec_pow(ValView::Int(2))).spec_sqrt()
    }

    /// Whether a rotation about `axis` by `by` avoids the two divisions by a
    /// literal zero in the back-conversion.  The literal zero angle is
    /// always safe: it short-circuits before the formula is built.
    pub open spec fn spec_rot_defined(self, axis: NormView, by: AngleView) -> bool {
        by.is_lit_zero() || (!self.spec_rot_radial(axis, by).is_lit_zero()
            && !self.spec_rot_planar(axis, by).is_lit_zero())
    }

    /// What [`Norm::rot`] returns: the input unchanged for the literal zero
    /// angle, and otherwise the quaternion-conjugated point converted back
    /// to polar and azimuthal form.
    pub open spec fn spec_rot(self, axis: NormView, by: AngleView) -> NormView
        recommends
            self.spec_rot_defined(axis, by),
    {
        if by.is_lit_zero() {
            self
        } else {
            let (r1, r2, r3) = self.spec_rot_parts(axis, by);
            NormView {
                theta: r3.spec_div(self.spec_rot_radial(axis, by)).spec_acos(),
                phi: r1.spec_div(self.spec_rot_planar(axis, by)).spec_acos(),
            }
        }
    }
}

/// Round-trip law, on the angles whose sums still fold: when the azimuth
/// and the move are both integer-coefficient multiples of pi, moving east
/// and then west by the same angle (or west and then east) returns exactly
/// the starting point, so its Cartesian projection is unchanged too.  With
/// coefficients that are not integer literals the sum degrades to an
/// unfolded node and the round trip is only numerically, not structurally,
/// the identity.
pub proof fn lemma_east_west_int(n: NormView, p: int, q: int)
    requires
        n.phi == AngleView::Pi(Box::new(ValView::Int(p))),
    ensures
        n.spec_east(AngleView::Pi(Box::new(ValView::Int(q)))).spec_west(
            AngleView::Pi(Box::new(ValView::Int(q))),
        ) == n,
        n.spec_west(AngleView::Pi(Box::new(ValView::Int(q)))).spec_east(
            AngleView::Pi(Box::new(ValView::Int(q))),
        ) == n,
{
}

impl Norm {
    /// The point at the pole, from which every construction starts.
    pub fn zero() -> (r: Norm)
        ensures
            r@ == NormView::spec_zero(),
    {
        Norm { theta: Angle::zero(), phi: Angle::zero() }
    }

    /// A structural copy of this point.
    pub fn dup(&self) -> (r: Norm)
        ensures
            r@ == self@,
    {
        Norm { theta: self.theta.dup(), phi: self.phi.dup() }
    }

    /// Moves the polar angle north (towards the pole) by `a`.
    pub fn north(&self, a: &Angle) -> (r: Norm)
        ensures
            r@ == self@.spec_north(a@),
    {
        self.south(&a.neg())
    }

    /// Moves the polar angle south (away from the pole) by `a`.
    pub fn south(&self, a: &Angle) -> (r: Norm)
        ensures
            r@ == self@.spec_south(a@),
    {
        Norm { theta: self.theta.add(a), phi: self.phi.dup() }
    }

    /// Moves the azimuth east by `a`.
    pub fn east(&self, a: &Angle) -> (r: Norm)
        ensures
            r@ == self@.spec_east(a@),
    {
        Norm { theta: self.theta.dup(), phi: self.phi.add(a) }
    }

    /// Moves the azimuth west by `a`.
    pub fn west(&self, a: &Angle) -> (r: Norm)
        ensures
            r@ == self@.spec_west(a@),
    {
        self.east(&a.neg())
    }

    /// Rotates the point about the reference `x` axis by `by`, re-deriving
    /// the polar and azimuthal angles through spherical trigonometry.  An
    /// azimuth at the literal zero angle would fold the tangent to a
    /// literal zero, whose reciprocal is an invalid algebraic state, so the
    /// contract rules it out.
    pub fn rot_x(&self, by: &Angle) -> (r: Norm)
        requires
            !self@.phi.is_lit_zero(),
        ensures
            r@ == self@.spec_rot_x(by@),
    {
        Norm {
            theta: self
                .theta
                .sin()
                .mul(&self.phi.sin())
                .mul(&by.sin())
                .add(&self.theta.cos().mul(&by.cos()))
                .acos(),
            phi: self
                .phi
                .tan()
                .mul(
                    &by.cos().sub(
                        &self.phi.tan().rec().mul(&by.sin()).mul(&self.phi.cos().rec()),
                    ),
                )
                .atan(),
        }
    }

    /// Rotates the point about an arbitrary axis by `by`, via quaternion
    /// conjugation.  The literal zero angle short-circuits to the unchanged
    /// input, with no rotation formula built at all; any other angle must
    /// not drive either back-conversion divisor to a literal zero (as
    /// rotating a point lying on the axis itself can).
    pub fn rot(&self, axis: &Norm, by: &Angle) -> (r: Norm)
        requires
            self@.spec_rot_defined(axis@, by@),
        ensures
            r@ == self@.spec_rot(axis@, by@),
            by@.is_lit_zero() ==> r@ == self@,
    {
        if by.is_zero() {
            return self.dup();
        }
        // The point to rotate, as a pure-vector quaternion; the negated z
        // preserves the z-up axis.
        let p1 = self.x();
        let p2 = self.y();
        let p3 = self.z().neg();

        let s = by.idiv(2).sin();
        // The quaternion to rotate by, and its inverse.
        let q0 = by.idiv(2).cos();
        let q1 = axis.x().mul(&s);
        let q2 = axis.y().mul(&s);
        let q3 = axis.z().mul(&s);
        let n1 = q1.neg();
        let n2 = q2.neg();
        let n3 = q3.neg();

        // The product of the rotation quaternion with the point (whose
        // scalar component is zero).
        let qp0 = q1.mul(&p1).neg().sub(&q2.mul(&p2)).sub(&q3.mul(&p3));
        let qp1 = q0.mul(&p1).sub(&q2.mul(&p3)).add(&q3.mul(&p2));
        let qp2 = q0.mul(&p2).add(&q1.mul(&p3)).sub(&q3.mul(&p1));
        let qp3 = q0.mul(&p3).sub(&q1.mul(&p2)).add(&q2.mul(&p1));

        // The vector part of the product with the inverse quaternion; the
        // scalar part is identically zero and is not built.
        let r1 = qp0.mul(&n1).add(&qp1.mul(&q0)).sub(&qp2.mul(&n3)).add(&qp3.mul(&n2));
        let r2 = qp0.mul(&n2).add(&qp1.mul(&n3)).add(&qp2.mul(&q0)).sub(&qp3.mul(&n1));
        let r3 = qp0.mul(&n3).add(&qp1.mul(&n2)).add(&qp2.mul(&n1)).sub(&qp3.mul(&q0));

        // Convert back to polar and azimuthal angles.
        let radial = r1.ipow(2).add(&r2.ipow(2)).add(&r3.ipow(2)).sqrt();
        let planar = r1.ipow(2).add(&r2.ipow(2)).sqrt();
        Norm { theta: r3.div(&radial).acos(), phi: r1.div(&planar).acos() }
    }

    /// The Euclidean distance between this point's and `to`'s Cartesian
    /// projections, as an exact expression.
    pub fn distance_to(self, to: Norm) -> (r: Val)
        ensures
            r@ == self@.spec_distance_to(to@),
    {
        let dx = to.x().sub(&self.x()).ipow(2);
        let dy = to.y().sub(&self.y()).ipow(2);
        let dz = to.z().sub(&self.z()).ipow(2);
        dx.add(&dy).add(&dz).sqrt()
    }

    /// The Cartesian `x` component.
    pub fn x(&self) -> (r: Val)
        ensures
            r@ == self@.spec_x(),
    {
        self.theta.sin().mul(&self.phi.cos())
    }

    /// The Cartesian `y` component.
    pub fn y(&self) -> (r: Val)
        ensures
            r@ == self@.spec_y(),
    {
        self.theta.sin().mul(&self.phi.sin())
    }

    /// The Cartesian `z` component.
    pub fn z(&self) -> (r: Val)
        ensures
            r@ == self@.spec_z(),
    {
        self.theta.cos()
    }
}

} // verus!
