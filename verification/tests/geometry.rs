//! Checks on the exported mesh constructions: mesh counts, index tables,
//! symmetry tags, parameter values, and the flattened coordinate order.

use icos::web::babylon::{xyz, Consts};
use icos::web::geom::Geometry;
use icos::{alpha, beta, Angle, Norm};

#[test]
fn xyz_flattens_in_y_up_left_handed_order() {
    let p = Norm::zero().south(&alpha()).east(&Angle::part(5));
    let flat = xyz(vec![p.dup(), Norm::zero()]);
    assert_eq!(flat.len(), 6);
    assert_eq!(flat[0], p.x().render());
    assert_eq!(flat[1], p.z().render());
    assert_eq!(flat[2], p.y().render());
    assert_eq!(flat[3], "0");
    assert_eq!(flat[4], "1");
    assert_eq!(flat[5], "0");
}

#[test]
fn goldberg_1_0_exports_one_pentagon() {
    let g = Geometry::goldberg_1_0();
    let meshes = g.meshes();
    assert_eq!(meshes.len(), 1);
    assert_eq!(g.params().len(), 0);

    let pentagon = &meshes[0];
    assert_eq!(pentagon.symmetry().as_str(), "icos.v.1");
    assert_eq!(pentagon.indices(), &vec![0, 1, 2, 2, 3, 0, 0, 3, 4]);
    assert_eq!(pentagon.positions().len(), 15);

    // The first vertex is the pole moved south by beta and east by a tenth
    // turn, flattened in x, z, y order.
    let v0 = Norm::zero().south(&beta()).east(&Angle::part(10));
    assert_eq!(pentagon.positions()[0], v0.x().render());
    assert_eq!(pentagon.positions()[1], v0.z().render());
    assert_eq!(pentagon.positions()[2], v0.y().render());
}

#[test]
fn goldberg_1_1_exports_three_symmetry_classes() {
    let g = Geometry::goldberg_1_1();
    let meshes = g.meshes();
    assert_eq!(meshes.len(), 3);
    assert_eq!(g.params(), &vec![String::from("0.6329870724964068")]);

    assert_eq!(meshes[0].symmetry().as_str(), "icos.v.1");
    assert_eq!(meshes[0].positions().len(), 15);
    assert_eq!(meshes[0].indices(), &vec![0, 1, 2, 2, 3, 0, 0, 3, 4]);

    assert_eq!(meshes[1].symmetry().as_str(), "icos.f.3");
    assert_eq!(meshes[1].positions().len(), 9);
    assert_eq!(meshes[1].indices(), &vec![0, 2, 1]);

    assert_eq!(meshes[2].symmetry().as_str(), "icos.f.c");
    assert_eq!(meshes[2].positions().len(), 3);
    assert_eq!(meshes[2].indices().len(), 0);

    // The pentagon vertices carry the free parameter symbolically.
    assert!(meshes[0].positions()[0].contains('t'));

    // The face-centre mesh holds the second pentagon vertex.
    assert_eq!(meshes[2].positions()[0], meshes[0].positions()[3]);
}

#[test]
fn goldberg_2_0_exports_two_symmetry_classes() {
    let g = Geometry::goldberg_2_0();
    let meshes = g.meshes();
    assert_eq!(meshes.len(), 2);
    assert_eq!(g.params(), &vec![String::from("0.5")]);

    assert_eq!(meshes[0].symmetry().as_str(), "icos.v.1");
    assert_eq!(meshes[0].positions().len(), 15);
    assert_eq!(meshes[0].indices(), &vec![0, 1, 2, 2, 3, 0, 0, 3, 4]);

    assert_eq!(meshes[1].symmetry().as_str(), "icos.f.3");
    assert_eq!(meshes[1].positions().len(), 12);
    assert_eq!(meshes[1].indices(), &vec![1, 0, 2, 1, 2, 3]);

    // The quad's first vertex is the parameterised ring vertex itself.
    assert_eq!(meshes[1].positions()[0], meshes[0].positions()[0]);
}

#[test]
fn consts_exports_axes_ring_vertex_and_offsets() {
    let c = Consts::new();
    assert_eq!(c.x(), &vec!["1", "0", "0"]);
    assert_eq!(c.y(), &vec!["0", "1", "0"]);
    assert_eq!(c.z(), &vec!["0", "0", "1"]);

    let q = Norm::zero().south(&alpha());
    let r = q.east(&Angle::turn().idiv(5));
    assert_eq!(c.r(), &xyz(vec![r.dup()]));

    let ox = format!("{} + {}", q.x().render(), r.x().render());
    let oy = r.y().render();
    let oz = format!(
        "{} + {} + {}",
        q.z().render(),
        r.z().render(),
        Norm::zero().z().render()
    );
    assert_eq!(c.o(), &vec![ox, oz, oy]);
}

#[test]
fn icosahedron_index_table_has_twenty_faces() {
    let idx = icos::icos_indices();
    assert_eq!(idx.len(), 60);
    // Every triple indexes a valid vertex.
    for i in &idx {
        assert!(*i < 12);
    }
    // The pole belongs to exactly five faces, as does the antipode.
    assert_eq!(idx.iter().filter(|i| **i == 0).count(), 5);
    assert_eq!(idx.iter().filter(|i| **i == 11).count(), 5);
}
