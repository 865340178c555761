//! The dodecahedron's characteristic angle.

use vstd::prelude::*;

use crate::val::Angle;
use crate::val::Val;
use crate::val::ValView;

verus! {

/// The tree that [`beta`] builds:
/// `asin(sqrt((sqrt(5) + 5) * 2 / 15) * 2 / (sqrt(5) + 1))`.
pub open spec fn spec_beta() -> crate::val::AngleView {
    ValView::Int(5)
        .spec_sqrt()
        .spec_add(ValView::Int(5))
        .spec_mul(ValView::Int(2))
        .spec_div(ValView::Int(15))
        .spec_sqrt()
        .spec_mul(ValView::Int(2))
        .spec_div(ValView::Int(5).spec_sqrt().spec_add(ValView::Int(1)))
        .spec_asin()
}

/// Angle at the origin between the midpoint of a face and one of its
/// vertices: `asin(sqrt((sqrt(5) + 5) * 2 / 15) * 2 / (sqrt(5) + 1))`.
pub fn beta() -> (r: Angle)
    ensures
        r@ == spec_beta(),
{
    Val::from_i64(5)
        .sqrt()
        .iadd(5)
        .imul(2)
        .idiv(15)
        .sqrt()
        .imul(2)
        .div(&Val::from_i64(5).sqrt().iadd(1))
        .asin()
}

} // verus!
