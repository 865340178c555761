//! The symbolic side of the equal-edge parameter search.
//!
//! The truncated-icosahedron construction has one free parameter `t`; the
//! right value makes the edge between two top-ring vertices equal to the
//! edge between a top-ring and a second-ring vertex.  This module builds the
//! exact signed difference of the two edge lengths for a given `t`, and
//! performs one bisection step on the current estimate.  The floating-point
//! evaluation of the difference, which drives the bisection's direction, is
//! a best-effort numeric concern and stays outside the exact kernel.

use vstd::prelude::*;

use crate::icos::alpha;
use crate::icos::spec_alpha;
use crate::icos::spec_fifth;
use crate::spherical::Norm;
use crate::spherical::NormView;
use crate::val::Angle;
use crate::val::Val;
use crate::val::ValView;

verus! {

/// The tree that [`edge_delta`] builds for a parameter tree `t`: the
/// distance from the first top-ring vertex to the second-ring vertex below
/// it, minus the distance to the next top-ring vertex, for rings placed
/// `alpha * t / 2` from the poles.
pub open spec fn spec_edge_delta(t: ValView) -> ValView {
    let by = spec_alpha().spec_mul(t).spec_div(ValView::Int(2));
    let a = NormView::spec_zero().spec_south(by);
    let b = NormView::spec_zero().spec_south(spec_alpha()).spec_north(by);
    let c = a.spec_east(spec_fifth());
    a.spec_distance_to(b).spec_sub(a.spec_distance_to(c))
}

/// The exact signed difference of the two candidate edge lengths of the
/// truncated icosahedron, as a function of the parameter tree `t`.
pub fn edge_delta(t: &Val) -> (r: Val)
    ensures
        r@ == spec_edge_delta(t@),
{
    let fifth_turn = Angle::turn().idiv(5);
    let by = alpha().mul(t).idiv(2);

    let a = Norm::zero().south(&by);
    let b = Norm::zero().south(&alpha()).north(&by);
    let c = a.east(&fifth_turn);

    let ab = a.dup().distance_to(b);
    let ac = a.distance_to(c);
    ab.sub(&ac)
}

/// One bisection step: the adjustment is halved, and the estimate moves up
/// by the new adjustment when the last evaluation was positive and down
/// when it was not.
pub fn solver_step(t: &Val, adjust: &Val, positive: bool) -> (r: (Val, Val))
    ensures
        r.1@ == adjust@.spec_div(ValView::Int(2)),
        r.0@ == if positive {
            t@.spec_add(adjust@.spec_div(ValView::Int(2)))
        } else {
            t@.spec_sub(adjust@.spec_div(ValView::Int(2)))
        },
{
    let next = adjust.idiv(2);
    let moved = if positive {
        t.add(&next)
    } else {
        t.sub(&next)
    };
    (moved, next)
}

} // verus!
