//! The icosahedron's characteristic angle and vertex construction.

use vstd::prelude::*;

use crate::spherical::Norm;
use crate::spherical::NormView;
use crate::val::Angle;
use crate::val::AngleView;
use crate::val::Val;
use crate::val::ValView;

verus! {

/// The tree that [`alpha`] builds: `atan(2)`.
pub open spec fn spec_alpha() -> AngleView {
    ValView::Int(2).spec_atan()
}

/// Angle at the origin between two adjacent vertices of an icosahedron:
/// `atan(2)`.
pub fn alpha() -> (r: Angle)
    ensures
        r@ == spec_alpha(),
{
    Val::from_i64(2).atan()
}

/// A fifth of a full turn, the azimuthal step between ring vertices.
pub open spec fn spec_fifth() -> AngleView {
    AngleView::spec_turn().spec_div(ValView::Int(5))
}

/// The `k`-th vertex of the upper ring: the pole moved south by alpha, then
/// east by `k` fifth turns, one at a time.
pub open spec fn spec_icos_top(k: int) -> NormView
    decreases k,
{
    if k <= 0 {
        NormView::spec_zero().spec_south(spec_alpha())
    } else {
        spec_icos_top(k - 1).spec_east(spec_fifth())
    }
}

/// The `k`-th vertex of the lower ring: the antipode moved north by alpha
/// and east by half a fifth turn, then east by `k` fifth turns.
pub open spec fn spec_icos_bot(k: int) -> NormView
    decreases k,
{
    if k <= 0 {
        NormView::spec_zero()
            .spec_south(AngleView::spec_turn().spec_div(ValView::Int(2)))
            .spec_north(spec_alpha())
            .spec_east(spec_fifth().spec_div(ValView::Int(2)))
    } else {
        spec_icos_bot(k - 1).spec_east(spec_fifth())
    }
}

/// The `i`-th of the icosahedron's twelve vertices: the pole, the five
/// upper-ring vertices, the five lower-ring vertices, and the antipode.
pub open spec fn spec_icos_point(i: int) -> NormView {
    if i == 0 {
        NormView::spec_zero()
    } else if i <= 5 {
        spec_icos_top(i - 1)
    } else if i <= 10 {
        spec_icos_bot(i - 6)
    } else {
        NormView::spec_zero().spec_south(AngleView::spec_turn().spec_div(ValView::Int(2)))
    }
}

/// The icosahedron's twelve vertices, in the order of
/// [`spec_icos_point`]: pole, upper ring, lower ring, antipode.
pub fn icos_points() -> (r: Vec<Norm>)
    ensures
        r@.len() == 12,
        forall|i: int| 0 <= i < 12 ==> r@[i]@ == spec_icos_point(i),
{
    proof {
        reveal_with_fuel(spec_icos_top, 6);
        reveal_with_fuel(spec_icos_bot, 6);
    }
    let fifth = Angle::turn().idiv(5);

    let top = Norm::zero();
    let top_0 = top.south(&alpha());
    let top_1 = top_0.east(&fifth);
    let top_2 = top_1.east(&fifth);
    let top_3 = top_2.east(&fifth);
    let top_4 = top_3.east(&fifth);

    let bot = Norm::zero().south(&Angle::turn().idiv(2));
    let bot_0 = bot.north(&alpha()).east(&fifth.idiv(2));
    let bot_1 = bot_0.east(&fifth);
    let bot_2 = bot_1.east(&fifth);
    let bot_3 = bot_2.east(&fifth);
    let bot_4 = bot_3.east(&fifth);

    let mut r: Vec<Norm> = Vec::new();
    r.push(top);
    r.push(top_0);
    r.push(top_1);
    r.push(top_2);
    r.push(top_3);
    r.push(top_4);
    r.push(bot_0);
    r.push(bot_1);
    r.push(bot_2);
    r.push(bot_3);
    r.push(bot_4);
    r.push(bot);
    r
}

/// The icosahedron's twenty faces as vertex-index triples over the order of
/// [`icos_points`].
pub fn icos_indices() -> (r: Vec<u64>)
    ensures
        r@ == seq![
            0u64, 2, 1, 0, 3, 2, 0, 4, 3, 0, 5, 4, 0, 1, 5,
            1, 2, 6, 2, 3, 7, 3, 4, 8, 4, 5, 9, 5, 1, 10,
            1, 6, 10, 2, 7, 6, 3, 8, 7, 4, 9, 8, 5, 10, 9,
            6, 7, 11, 7, 8, 11, 8, 9, 11, 9, 10, 11, 10, 6, 11,
        ],
{
    let r: Vec<u64> = vec![
        0, 2, 1, 0, 3, 2, 0, 4, 3, 0, 5, 4, 0, 1, 5,
        1, 2, 6, 2, 3, 7, 3, 4, 8, 4, 5, 9, 5, 1, 10,
        1, 6, 10, 2, 7, 6, 3, 8, 7, 4, 9, 8, 5, 10, 9,
        6, 7, 11, 7, 8, 11, 8, 9, 11, 9, 10, 11, 10, 6, 11,
    ];
    r
}

} // verus!
