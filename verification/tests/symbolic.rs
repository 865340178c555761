//! Structural checks: local simplification, rendering, the documented
//! zero-detection boundary, the identity laws on concrete trees, and the
//! exact integer folds.

use icos::{alpha, beta, Angle, Norm, Val};

#[test]
fn literal_arithmetic_folds() {
    assert_eq!(Val::from_i64(2).add(&Val::from_i64(3)).render(), "5");
    assert_eq!(Val::from_i64(2).mul(&Val::from_i64(3)).render(), "6");
    assert_eq!(Val::from_i64(2).sub(&Val::from_i64(3)).render(), "-1");
    assert_eq!(Val::from_i64(-7).render(), "-7");
    assert_eq!(Val::from_i64(123).imul(1000).render(), "123000");
}

#[test]
fn identity_elimination() {
    let x = Val::param(0).iadd(2);
    assert_eq!(x.iadd(0).render(), x.render());
    assert_eq!(Val::from_i64(0).add(&x).render(), x.render());
    assert_eq!(x.imul(1).render(), x.render());
    assert_eq!(Val::from_i64(1).mul(&x).render(), x.render());
    assert_eq!(x.imul(0).render(), "0");
    assert_eq!(x.idiv(1).render(), x.render());
}

#[test]
fn sign_pushing() {
    // Negation flips a difference rather than wrapping it.
    let d = Val::param(0).isub(2);
    assert_eq!(d.render(), "(t+-2)");
    // A difference node proper is flipped by negation.
    let sum = Val::param(0).iadd(1);
    let neg_sum = sum.neg();
    assert_eq!(neg_sum.render(), "((t+1)*-1)");
    // Negation is pushed into a product's first factor.
    let p = Val::param(0).imul(3);
    assert_eq!(p.neg().render(), "((t*-1)*3)");
    // Negation is pushed into a quotient's numerator.
    let q = Val::param(0).idiv(3);
    assert_eq!(q.neg().render(), "((t*-1)/3)");
}

#[test]
fn function_call_rendering() {
    assert_eq!(Val::from_i64(5).sqrt().render(), "sqrt(5)");
    assert_eq!(Val::from_i64(2).pow(&Val::from_i64(3)).render(), "pow(2,3)");
    assert_eq!(Angle::part(5).sin().render(), "sin((2/5)*PI)");
    assert_eq!(Angle::part(5).cos().render(), "cos((2/5)*PI)");
    assert_eq!(Angle::part(5).tan().render(), "tan((2/5)*PI)");
    assert_eq!(Val::param(0).render(), "t");
    assert_eq!(Val::param(2).render(), "t_2");
    assert_eq!(Val::param(12).render(), "t_12");
}

#[test]
fn angle_rendering() {
    assert_eq!(Angle::zero().render(), "0");
    assert_eq!(Angle::turn().render(), "2*PI");
    assert_eq!(Angle::part(5).render(), "(2/5)*PI");
    assert_eq!(Angle::part(5).add(&Angle::part(10)).render(), "((2/5)+(2/10))*PI");
    assert_eq!(alpha().render(), "atan(2)");
    assert_eq!(
        beta().render(),
        "asin(((sqrt((((sqrt(5)+5)*2)/15))*2)/(sqrt(5)+1)))"
    );
}

#[test]
fn trig_of_zero_angle_folds() {
    assert_eq!(Angle::zero().sin().render(), "0");
    assert_eq!(Angle::zero().cos().render(), "1");
    assert_eq!(Angle::zero().tan().render(), "0");
}

#[test]
fn inverse_trig_cancels_only_literal_nodes() {
    let a = Angle::part(5);
    // asin(sin(a)) is recognised and returns the angle itself.
    assert_eq!(a.sin().asin().render(), a.render());
    assert_eq!(a.cos().acos().render(), a.render());
    assert_eq!(a.tan().atan().render(), a.render());
    // Any other argument synthesises an inverse-trigonometric node.
    assert_eq!(Val::param(0).asin().render(), "asin(t)");
    assert_eq!(Val::param(0).acos().render(), "acos(t)");
    assert_eq!(Val::param(0).atan().render(), "atan(t)");
}

#[test]
fn zero_detection_stops_at_the_canonical_shape() {
    // The canonical zero is recognised...
    assert!(Angle::zero().is_zero());
    assert!(Angle::turn().imul(0).is_zero());
    // ...but a composite angle that is mathematically zero is not, by
    // design: beta is not in coefficient-times-pi shape, so the difference
    // degrades to an unfolded node.
    let composite_zero = beta().sub(&beta());
    assert!(!composite_zero.is_zero());
    // A full turn is not the zero angle to the detector either.
    assert!(!Angle::turn().is_zero());
}

#[test]
fn rot_by_zero_angle_returns_point_unchanged() {
    let p = Norm::zero().south(&alpha()).east(&Angle::part(5));
    let axis = Norm::zero().south(&Angle::part(4));
    let r = p.rot(&axis, &Angle::zero());
    assert_eq!(r.x().render(), p.x().render());
    assert_eq!(r.y().render(), p.y().render());
    assert_eq!(r.z().render(), p.z().render());
}

#[test]
fn rot_by_composite_zero_angle_is_not_short_circuited() {
    // A mathematically zero angle outside the canonical shape does not take
    // the fast path: the full rotation formula is built instead.
    let p = Norm::zero();
    let axis = Norm::zero().south(&Angle::part(4));
    let composite_zero = beta().sub(&beta());
    let r = p.rot(&axis, &composite_zero);
    assert_ne!(r.z().render(), p.z().render());
}

#[test]
fn integer_folds_are_exact() {
    assert_eq!(Val::from_i64(41).iadd(1).to_i64(), Some(42));
    assert_eq!(Val::param(0).to_i64(), None);
    assert_eq!(Val::from_i64(2).pow(&Val::from_i64(10)).to_i64(), Some(1024));
    assert_eq!(Val::from_i64(-2).pow(&Val::from_i64(3)).to_i64(), Some(-8));
    // 2^63 no longer fits in an i64 but still fits in a u64.
    let big = Val::from_i64(2).pow(&Val::from_i64(63));
    assert_eq!(big.to_i64(), None);
    assert_eq!(big.to_u64(), Some(9223372036854775808));
    // A negative value has no unsigned fold.
    assert_eq!(Val::from_i64(-1).to_u64(), None);
    // Quotients, roots and trigonometry never fold to integers.
    assert_eq!(Val::from_i64(4).idiv(2).to_i64(), None);
    assert_eq!(Val::from_i64(4).sqrt().to_i64(), None);
    assert_eq!(Angle::part(5).sin().to_i64(), None);
}

#[test]
fn reciprocal_flips_quotients() {
    let q = Val::param(0).idiv(3);
    assert_eq!(q.rec().render(), "(3/t)");
    assert_eq!(Val::from_i64(1).rec().render(), "1");
    assert_eq!(Val::from_i64(7).rec().render(), "(1/7)");
}

#[test]
fn pow_and_sqrt_simplify_only_literal_ends() {
    assert_eq!(Val::from_i64(0).pow(&Val::param(0)).render(), "0");
    assert_eq!(Val::param(0).pow(&Val::from_i64(0)).render(), "1");
    assert_eq!(Val::from_i64(0).sqrt().render(), "0");
    assert_eq!(Val::from_i64(1).sqrt().render(), "1");
    // No integer roots are computed symbolically, even for perfect squares.
    assert_eq!(Val::from_i64(4).sqrt().render(), "sqrt(4)");
}

#[test]
fn duplication_is_structural() {
    let v = beta().sin().mul(&Val::param(3)).sqrt();
    assert_eq!(v.dup().render(), v.render());
    let a = alpha().add(&Angle::part(5));
    assert_eq!(a.dup().render(), a.render());
}
