//! Goldberg-polyhedron meshes as exact rendered geometry.
//!
//! Each construction walks outward from the pole with the characteristic
//! icosahedral angles and exports one mesh per symmetry class: the flattened
//! rendered coordinates of its vertices, the triangle indices, and the
//! symmetry tag the front end replicates the mesh by.  Constructions with a
//! free parameter also export the numeric parameter value that makes all
//! edges equal, as found by the bisection solver.

use vstd::prelude::*;
use vstd::string::StringExecFns;

use crate::dodec::beta;
use crate::dodec::spec_beta;
use crate::icos::alpha;
use crate::icos::spec_alpha;
use crate::icos::spec_fifth;
use crate::spherical::Norm;
use crate::spherical::NormView;
use crate::val::Angle;
use crate::val::AngleView;
use crate::val::Val;
use crate::val::ValView;
use crate::web::babylon::spec_xyz_seq;
use crate::web::babylon::xyz;

verus! {

/// One mesh of a symmetry class: flattened rendered vertex coordinates,
/// triangle indices into them, and the symmetry tag.
pub struct Mesh {
    positions: Vec<String>,
    indices: Vec<u64>,
    symmetry: String,
}

/// The mathematical model of a [`Mesh`].
pub ghost struct MeshView {
    pub positions: Seq<Seq<char>>,
    pub indices: Seq<u64>,
    pub symmetry: Seq<char>,
}

impl View for Mesh {
    type V = MeshView;

    closed spec fn view(&self) -> MeshView {
        MeshView {
            positions: self.positions@.map_values(|s: String| s@),
            indices: self.indices@,
            symmetry: self.symmetry@,
        }
    }
}

impl Mesh {
    /// The flattened rendered vertex coordinates.
    pub fn positions(&self) -> (r: &Vec<String>)
        ensures
            r@.map_values(|s: String| s@) == self@.positions,
    {
        &self.positions
    }

    /// The triangle indices into the coordinate list.
    pub fn indices(&self) -> (r: &Vec<u64>)
        ensures
            r@ == self@.indices,
    {
        &self.indices
    }

    /// The symmetry tag under which the front end replicates this mesh.
    pub fn symmetry(&self) -> (r: &String)
        ensures
            r@ == self@.symmetry,
    {
        &self.symmetry
    }
}

/// A polyhedron: its meshes and the numeric values of its free parameters.
pub struct Geometry {
    meshes: Vec<Mesh>,
    params: Vec<String>,
}

/// The mathematical model of a [`Geometry`].
pub ghost struct GeometryView {
    pub meshes: Seq<MeshView>,
    pub params: Seq<Seq<char>>,
}

impl View for Geometry {
    type V = GeometryView;

    closed spec fn view(&self) -> GeometryView {
        GeometryView {
            meshes: self.meshes@.map_values(|m: Mesh| m@),
            params: self.params@.map_values(|s: String| s@),
        }
    }
}

impl Geometry {
    /// The meshes, one per symmetry class.
    pub fn meshes(&self) -> (r: &Vec<Mesh>)
        ensures
            r@.map_values(|m: Mesh| m@) == self@.meshes,
    {
        &self.meshes
    }

    /// The rendered numeric values of the construction's free parameters.
    pub fn params(&self) -> (r: &Vec<String>)
        ensures
            r@.map_values(|s: String| s@) == self@.params,
    {
        &self.params
    }
}

/// The `i`-th pentagon vertex of the dodecahedral construction: the pole
/// moved south by beta, east by a tenth turn, then east by `i` fifth turns.
pub open spec fn spec_g10_point(i: int) -> NormView {
    NormView::spec_zero().spec_south(spec_beta()).spec_east(
        AngleView::spec_part(10),
    ).spec_east(spec_fifth().spec_mul(ValView::Int(i)))
}

/// The vertex sequence of the dodecahedral pentagon mesh.
pub open spec fn spec_g10_points() -> Seq<NormView> {
    Seq::new(5, |i: int| spec_g10_point(i))
}

/// The vertex-class point of the 1-1 construction for parameter `t`: the
/// pole moved south by `alpha * t / 2`, then east by `i` fifth turns.
pub open spec fn spec_g11_point(i: int) -> NormView {
    NormView::spec_zero().spec_south(
        spec_alpha().spec_mul(ValView::Param(1)).spec_div(ValView::Int(2)),
    ).spec_east(spec_fifth().spec_mul(ValView::Int(i)))
}

/// The vertex sequence of the 1-1 construction's pentagon mesh.
pub open spec fn spec_g11_points() -> Seq<NormView> {
    Seq::new(5, |i: int| spec_g11_point(i))
}

/// The second-ring vertex of the 1-1 construction: the pole moved south by
/// alpha and back north by `alpha * t / 2`.
pub open spec fn spec_g11_second_ring() -> NormView {
    NormView::spec_zero().spec_south(spec_alpha()).spec_north(
        spec_alpha().spec_mul(ValView::Param(1)).spec_div(ValView::Int(2)),
    )
}

/// The `i`-th vertex-class point of the 2-0 construction for parameter `t`:
/// the pole moved south by `beta * t`, east by a tenth turn, then east by
/// `i` fifth turns.
pub open spec fn spec_g20_point(i: int) -> NormView {
    NormView::spec_zero().spec_south(spec_beta().spec_mul(ValView::Param(1))).spec_east(
        AngleView::spec_part(10),
    ).spec_east(spec_fifth().spec_mul(ValView::Int(i)))
}

/// The vertex sequence of the 2-0 construction's pentagon mesh.
pub open spec fn spec_g20_points() -> Seq<NormView> {
    Seq::new(5, |i: int| spec_g20_point(i))
}

/// The face-class anchor of the 2-0 construction: the pole moved south by
/// beta and east by a tenth turn.
pub open spec fn spec_g20_face_point(i: int) -> NormView {
    NormView::spec_zero().spec_south(spec_beta()).spec_east(
        AngleView::spec_part(10),
    ).spec_east(spec_fifth().spec_mul(ValView::Int(i)))
}

impl Geometry {
    /// The dodecahedral (1,0) Goldberg construction: one pentagon mesh under
    /// the vertex symmetry class, with no free parameter.
    pub fn goldberg_1_0() -> (g: Geometry)
        ensures
            g@.meshes =~= seq![
                MeshView {
                    positions: spec_xyz_seq(spec_g10_points()),
                    indices: seq![0u64, 1, 2, 2, 3, 0, 0, 3, 4],
                    symmetry: "icos.v.1"@,
                },
            ],
            g@.params =~= Seq::<Seq<char>>::empty(),
    {
        let fifth = Angle::part(5);
        let tenth = Angle::part(10);

        let top = Norm::zero();

        let mut pts: Vec<Norm> = Vec::new();
        let mut i: u64 = 0;
        while i < 5
            invariant
                i <= 5,
                pts@.len() == i,
                fifth@ == spec_fifth(),
                tenth@ == AngleView::spec_part(10),
                top@ == NormView::spec_zero(),
                forall|k: int| 0 <= k < i ==> #[trigger] pts@[k]@ == spec_g10_point(k),
            decreases 5 - i,
        {
            pts.push(top.south(&beta()).east(&tenth).east(&fifth.imul(i as i64)));
            i = i + 1;
        }
        proof {
            assert(pts@.map_values(|n: Norm| n@) =~= spec_g10_points());
        }

        Geometry {
            meshes: vec![
                Mesh {
                    positions: xyz(pts),
                    indices: vec![0, 1, 2, 2, 3, 0, 0, 3, 4],
                    symmetry: String::from_str("icos.v.1"),
                },
            ],
            params: Vec::new(),
        }
    }

    /// The (1,1) Goldberg construction (truncated icosahedron): the
    /// parameterised pentagon mesh, a face-class triangle, and a face
    /// centre, with the solved equal-edge parameter value.
    pub fn goldberg_1_1() -> (g: Geometry)
        ensures
            g@.meshes =~= seq![
                MeshView {
                    positions: spec_xyz_seq(spec_g11_points()),
                    indices: seq![0u64, 1, 2, 2, 3, 0, 0, 3, 4],
                    symmetry: "icos.v.1"@,
                },
                MeshView {
                    positions: spec_xyz_seq(
                        seq![
                            spec_g11_point(0),
                            spec_g11_point(0).spec_east(spec_fifth()),
                            spec_g11_second_ring(),
                        ],
                    ),
                    indices: seq![0u64, 2, 1],
                    symmetry: "icos.f.3"@,
                },
                MeshView {
                    positions: spec_xyz_seq(seq![spec_g11_point(0).spec_east(spec_fifth())]),
                    indices: Seq::<u64>::empty(),
                    symmetry: "icos.f.c"@,
                },
            ],
            g@.params =~= seq!["0.6329870724964068"@],
    {
        let t = Val::param(1);
        let by = alpha().mul(&t).idiv(2);

        let fifth = Angle::turn().idiv(5);

        let top = Norm::zero();

        let mut pts: Vec<Norm> = Vec::new();
        let mut i: u64 = 0;
        while i < 5
            invariant
                i <= 5,
                pts@.len() == i,
                by@ == spec_alpha().spec_mul(ValView::Param(1)).spec_div(ValView::Int(2)),
                fifth@ == spec_fifth(),
                top@ == NormView::spec_zero(),
                forall|k: int| 0 <= k < i ==> #[trigger] pts@[k]@ == spec_g11_point(k),
            decreases 5 - i,
        {
            pts.push(top.south(&by).east(&fifth.imul(i as i64)));
            i = i + 1;
        }
        proof {
            assert(pts@.map_values(|n: Norm| n@) =~= spec_g11_points());
        }

        let r_0_0 = top.south(&by);
        let r_0_1 = r_0_0.east(&fifth);
        let r_1_0 = top.south(&alpha()).north(&by);

        let face_pts = vec![r_0_0, r_0_1.dup(), r_1_0];
        proof {
            assert(face_pts@.map_values(|n: Norm| n@) =~= seq![
                spec_g11_point(0),
                spec_g11_point(0).spec_east(spec_fifth()),
                spec_g11_second_ring(),
            ]);
        }
        let centre_pts = vec![r_0_1];
        proof {
            assert(centre_pts@.map_values(|n: Norm| n@) =~= seq![
                spec_g11_point(0).spec_east(spec_fifth()),
            ]);
        }

        Geometry {
            meshes: vec![
                Mesh {
                    positions: xyz(pts),
                    indices: vec![0, 1, 2, 2, 3, 0, 0, 3, 4],
                    symmetry: String::from_str("icos.v.1"),
                },
                Mesh {
                    positions: xyz(face_pts),
                    indices: vec![0, 2, 1],
                    symmetry: String::from_str("icos.f.3"),
                },
                Mesh {
                    positions: xyz(centre_pts),
                    indices: Vec::new(),
                    symmetry: String::from_str("icos.f.c"),
                },
            ],
            params: vec![String::from_str("0.6329870724964068")],
        }
    }

    /// The (2,0) Goldberg construction: the parameterised pentagon mesh and
    /// a face-class quad, with the solved equal-edge parameter value.
    pub fn goldberg_2_0() -> (g: Geometry)
        ensures
            g@.meshes =~= seq![
                MeshView {
                    positions: spec_xyz_seq(spec_g20_points()),
                    indices: seq![0u64, 1, 2, 2, 3, 0, 0, 3, 4],
                    symmetry: "icos.v.1"@,
                },
                MeshView {
                    positions: spec_xyz_seq(
                        seq![
                            spec_g20_point(0),
                            spec_g20_point(0).spec_east(spec_fifth()),
                            spec_g20_face_point(0),
                            spec_g20_face_point(0).spec_east(spec_fifth()),
                        ],
                    ),
                    indices: seq![1u64, 0, 2, 1, 2, 3],
                    symmetry: "icos.f.3"@,
                },
            ],
            g@.params =~= seq!["0.5"@],
    {
        let t = Val::param(1);
        let by = beta().mul(&t);

        let fifth = Angle::part(5);
        let tenth = Angle::part(10);

        let o = Norm::zero().south(&beta()).east(&tenth);
        let r_0 = Norm::zero().south(&by).east(&tenth);

        let mut pts: Vec<Norm> = Vec::new();
        let mut i: u64 = 0;
        while i < 5
            invariant
                i <= 5,
                pts@.len() == i,
                fifth@ == spec_fifth(),
                r_0@ == NormView::spec_zero().spec_south(
                    spec_beta().spec_mul(ValView::Param(1)),
                ).spec_east(AngleView::spec_part(10)),
                forall|k: int| 0 <= k < i ==> #[trigger] pts@[k]@ == spec_g20_point(k),
            decreases 5 - i,
        {
            pts.push(r_0.east(&fifth.imul(i as i64)));
            i = i + 1;
        }
        proof {
            assert(pts@.map_values(|n: Norm| n@) =~= spec_g20_points());
        }

        let face_pts = vec![r_0.dup(), r_0.east(&fifth), o.dup(), o.east(&fifth)];
        proof {
            assert(face_pts@.map_values(|n: Norm| n@) =~= seq![
                spec_g20_point(0),
                spec_g20_point(0).spec_east(spec_fifth()),
                spec_g20_face_point(0),
                spec_g20_face_point(0).spec_east(spec_fifth()),
            ]);
        }

        Geometry {
            meshes: vec![
                Mesh {
                    positions: xyz(pts),
                    indices: vec![0, 1, 2, 2, 3, 0, 0, 3, 4],
                    symmetry: String::from_str("icos.v.1"),
                },
                Mesh {
                    positions: xyz(face_pts),
                    indices: vec![1, 0, 2, 1, 2, 3],
                    symmetry: String::from_str("icos.f.3"),
                },
            ],
            params: vec![String::from_str("0.5")],
        }
    }
}

} // verus!
