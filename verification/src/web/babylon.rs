//! Exact coordinate export in the renderer's coordinate convention.
//!
//! The rendering front end uses a Y-up, left-handed frame, so every point is
//! exported as its rendered `x`, `z`, `y` components, in that order.

use vstd::prelude::*;
use vstd::string::StringExecFns;

use crate::fmt::spec_render_val;
use crate::icos::alpha;
use crate::icos::spec_alpha;
use crate::spherical::Norm;
use crate::spherical::NormView;
use crate::val::Angle;
use crate::val::ValView;

verus! {

/// The `j`-th rendered coordinate of the flattened export of `pts`: the
/// point `j / 3`'s `x`, `z` or `y` component, in the front end's Y-up
/// left-handed order.
pub open spec fn spec_xyz_at(pts: Seq<NormView>, j: int) -> Seq<char> {
    let p = pts[j / 3];
    if j % 3 == 0 {
        spec_render_val(p.spec_x())
    } else if j % 3 == 1 {
        spec_render_val(p.spec_z())
    } else {
        spec_render_val(p.spec_y())
    }
}

/// The flattened rendered-coordinate export of `pts`: three strings per
/// point.
pub open spec fn spec_xyz_seq(pts: Seq<NormView>) -> Seq<Seq<char>> {
    Seq::new(pts.len() * 3, |j: int| spec_xyz_at(pts, j))
}

/// Flattens points into rendered coordinate strings, three per point, in
/// the front end's `x`, `z`, `y` order.
pub fn xyz(points: Vec<Norm>) -> (r: Vec<String>)
    ensures
        r@.map_values(|s: String| s@) == spec_xyz_seq(points@.map_values(|n: Norm| n@)),
{
    let ghost pts = points@.map_values(|n: Norm| n@);
    let mut out: Vec<String> = Vec::new();
    let mut i: usize = 0;
    while i < points.len()
        invariant
            i <= points@.len(),
            pts == points@.map_values(|n: Norm| n@),
            out@.len() == 3 * i,
            forall|j: int| 0 <= j < out@.len() ==> #[trigger] out@[j]@ == spec_xyz_at(pts, j),
        decreases points@.len() - i,
    {
        let p = &points[i];
        proof {
            assert(pts[i as int] == points@[i as int]@);
        }
        out.push(p.x().render());
        out.push(p.z().render());
        out.push(p.y().render());
        i = i + 1;
    }
    proof {
        assert(out@.map_values(|s: String| s@) =~= spec_xyz_seq(pts));
    }
    out
}

/// The fixed reference frame, the first upper-ring vertex and the face
/// offsets that the front end needs, all as exact rendered formulas.
pub struct Consts {
    x: Vec<String>,
    y: Vec<String>,
    z: Vec<String>,
    r: Vec<String>,
    o: Vec<String>,
}

/// The mathematical model of [`Consts`]: each field as rendered text.
pub ghost struct ConstsView {
    pub x: Seq<Seq<char>>,
    pub y: Seq<Seq<char>>,
    pub z: Seq<Seq<char>>,
    pub r: Seq<Seq<char>>,
    pub o: Seq<Seq<char>>,
}

impl View for Consts {
    type V = ConstsView;

    closed spec fn view(&self) -> ConstsView {
        ConstsView {
            x: self.x@.map_values(|s: String| s@),
            y: self.y@.map_values(|s: String| s@),
            z: self.z@.map_values(|s: String| s@),
            r: self.r@.map_values(|s: String| s@),
            o: self.o@.map_values(|s: String| s@),
        }
    }
}

/// The first upper-ring vertex: the pole moved south by alpha, then east by
/// a fifth turn.
pub open spec fn spec_consts_r() -> NormView {
    NormView::spec_zero().spec_south(spec_alpha()).spec_east(
        crate::val::AngleView::spec_turn().spec_div(ValView::Int(5)),
    )
}

/// The vertex below the pole, from which the ring vertex is reached.
pub open spec fn spec_consts_q() -> NormView {
    NormView::spec_zero().spec_south(spec_alpha())
}

impl Consts {
    /// The unit `x` axis, componentwise.
    pub fn x(&self) -> (r: &Vec<String>)
        ensures
            r@.map_values(|s: String| s@) == self@.x,
    {
        &self.x
    }

    /// The unit `y` axis, componentwise.
    pub fn y(&self) -> (r: &Vec<String>)
        ensures
            r@.map_values(|s: String| s@) == self@.y,
    {
        &self.y
    }

    /// The unit `z` axis, componentwise.
    pub fn z(&self) -> (r: &Vec<String>)
        ensures
            r@.map_values(|s: String| s@) == self@.z,
    {
        &self.z
    }

    /// The rendered first upper-ring vertex.
    pub fn r(&self) -> (r: &Vec<String>)
        ensures
            r@.map_values(|s: String| s@) == self@.r,
    {
        &self.r
    }

    /// The rendered face offsets.
    pub fn o(&self) -> (r: &Vec<String>)
        ensures
            r@.map_values(|s: String| s@) == self@.o,
    {
        &self.o
    }

    /// The exported constants: the three unit axes, the rendered first
    /// upper-ring vertex, and the summed face offsets.
    pub fn new() -> (c: Consts)
        ensures
            c@.x =~= seq!["1"@, "0"@, "0"@],
            c@.y =~= seq!["0"@, "1"@, "0"@],
            c@.z =~= seq!["0"@, "0"@, "1"@],
            c@.r =~= spec_xyz_seq(seq![spec_consts_r()]),
            c@.o =~= seq![
                spec_render_val(spec_consts_q().spec_x()) + " + "@ + spec_render_val(
                    spec_consts_r().spec_x(),
                ),
                spec_render_val(spec_consts_q().spec_z()) + " + "@ + spec_render_val(
                    spec_consts_r().spec_z(),
                ) + " + "@ + spec_render_val(NormView::spec_zero().spec_z()),
                spec_render_val(spec_consts_r().spec_y()),
            ],
    {
        let z = Norm::zero();

        let q = z.south(&alpha());
        let r = q.east(&Angle::turn().idiv(5));

        let mut ox = q.x().render();
        ox.append(" + ");
        ox.append(r.x().render().as_str());

        let oy = r.y().render();

        let mut oz = q.z().render();
        oz.append(" + ");
        oz.append(r.z().render().as_str());
        oz.append(" + ");
        oz.append(z.z().render().as_str());

        Consts {
            x: vec![
                String::from_str("1"),
                String::from_str("0"),
                String::from_str("0"),
            ],
            y: vec![
                String::from_str("0"),
                String::from_str("1"),
                String::from_str("0"),
            ],
            z: vec![
                String::from_str("0"),
                String::from_str("0"),
                String::from_str("1"),
            ],
            r: xyz(vec![r]),
            o: vec![ox, oz, oy],
        }
    }
}

} // verus!
