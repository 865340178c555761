//! Numeric checks: distances on the unit sphere, round trips, the
//! icosahedron regression and the bisection solver, all through a
//! best-effort floating-point fold of the exact trees.

use icos::{alpha, edge_delta, solver_step, Angle, Norm, Val};
use num_traits::ToPrimitive;

/// Best-effort floating-point fold of a value tree; `None` exactly when an
/// unresolved free parameter remains.
fn val_f64(v: &Val) -> Option<f64> {
    match v {
        Val::Int(a) => a.to_f64(),
        Val::Sum(a, b) => val_f64(a).and_then(|x| val_f64(b).map(|y| x + y)),
        Val::Dif(a, b) => val_f64(a).and_then(|x| val_f64(b).map(|y| x - y)),
        Val::Prd(a, b) => val_f64(a).and_then(|x| val_f64(b).map(|y| x * y)),
        Val::Rat(a, b) => val_f64(a).and_then(|x| val_f64(b).map(|y| x / y)),
        Val::Pow(a, b) => val_f64(a).and_then(|x| val_f64(b).map(|y| x.powf(y))),
        Val::Sqrt(a) => val_f64(a).map(|x| x.sqrt()),
        Val::Sin(a) => angle_f64(a).map(|x| x.sin()),
        Val::Cos(a) => angle_f64(a).map(|x| x.cos()),
        Val::Tan(a) => angle_f64(a).map(|x| x.tan()),
        Val::Param(_) => None,
    }
}

/// Best-effort floating-point fold of an angle tree.
fn angle_f64(a: &Angle) -> Option<f64> {
    match a {
        Angle::Pi(x) => val_f64(x).map(|v| std::f64::consts::PI * v),
        Angle::Sum(x, y) => angle_f64(x).and_then(|u| angle_f64(y).map(|v| u + v)),
        Angle::Dif(x, y) => angle_f64(x).and_then(|u| angle_f64(y).map(|v| u - v)),
        Angle::Prd(x, y) => angle_f64(x).and_then(|u| val_f64(y).map(|v| u * v)),
        Angle::Rat(x, y) => angle_f64(x).and_then(|u| val_f64(y).map(|v| u / v)),
        Angle::ASin(x) => val_f64(x).map(|v| v.asin()),
        Angle::ACos(x) => val_f64(x).map(|v| v.acos()),
        Angle::ATan(x) => val_f64(x).map(|v| v.atan()),
    }
}

fn close(a: f64, b: f64) -> bool {
    (a - b).abs() <= 1e-12 * a.abs().max(b.abs()).max(1.0)
}

#[test]
fn test_distance_to() {
    let half_turn = Angle::turn().idiv(2);
    let quarter_turn = half_turn.dup().idiv(2);

    // Zero distance.
    assert!(close(
        val_f64(&Norm::zero().distance_to(Norm::zero())).unwrap(),
        0.0
    ));

    // Distance between north & south poles.
    assert!(close(
        val_f64(&Norm::zero().distance_to(Norm::zero().south(&half_turn))).unwrap(),
        2.0
    ));

    // Distance between two opposite points on the equator.
    assert!(close(
        val_f64(
            &Norm::zero()
                .south(&quarter_turn)
                .distance_to(Norm::zero().south(&quarter_turn).west(&half_turn))
        )
        .unwrap(),
        2.0
    ));

    // Distance between any point on the equator and any pole.
    assert!(close(
        val_f64(
            &Norm::zero()
                .south(&half_turn)
                .distance_to(Norm::zero().south(&quarter_turn))
        )
        .unwrap(),
        val_f64(&Val::from_i64(2).sqrt()).unwrap()
    ));
}

#[test]
fn self_distance_is_zero_everywhere() {
    let points = vec![
        Norm::zero(),
        Norm::zero().south(&alpha()),
        Norm::zero().south(&alpha()).east(&Angle::part(5)),
        Norm::zero().south(&Angle::part(3)).west(&Angle::part(7)),
        Norm::zero().north(&icos::beta()),
    ];
    for p in points {
        let d = p.dup().distance_to(p);
        assert!(close(val_f64(&d).unwrap(), 0.0));
    }
}

#[test]
fn east_west_round_trip_preserves_projection() {
    let starts = vec![
        Norm::zero(),
        Norm::zero().south(&alpha()),
        Norm::zero().south(&Angle::part(3)).east(&Angle::part(7)),
    ];
    let moves = vec![Angle::part(5), Angle::part(10), alpha().idiv(3)];
    for p in &starts {
        for a in &moves {
            let there_back = p.east(a).west(a);
            let back_there = p.west(a).east(a);
            for q in [&there_back, &back_there] {
                assert!(close(
                    val_f64(&p.x()).unwrap(),
                    val_f64(&q.x()).unwrap()
                ));
                assert!(close(
                    val_f64(&p.y()).unwrap(),
                    val_f64(&q.y()).unwrap()
                ));
                assert!(close(
                    val_f64(&p.z()).unwrap(),
                    val_f64(&q.z()).unwrap()
                ));
            }
        }
    }
}

#[test]
fn parameter_trees_have_no_numeric_value() {
    let t = Val::param(0);
    assert!(val_f64(&t).is_none());
    let buried = Val::from_i64(3).add(&Val::param(1).imul(2)).sqrt();
    assert!(val_f64(&buried).is_none());
    assert!(buried.to_i64().is_none());
    assert!(buried.to_u64().is_none());
    // A parameterised distance has no numeric value either.
    let d = edge_delta(&Val::param(1));
    assert!(val_f64(&d).is_none());
}

#[test]
fn icosahedron_has_thirty_shortest_edges() {
    let points = icos::icos_points();
    assert_eq!(points.len(), 12);

    let mut distances: Vec<f64> = Vec::new();
    for i in 0..points.len() {
        for j in (i + 1)..points.len() {
            let d = points[i].dup().distance_to(points[j].dup());
            distances.push(val_f64(&d).unwrap());
        }
    }
    assert_eq!(distances.len(), 66);

    let mut shortest = distances[0];
    for d in &distances {
        if *d < shortest {
            shortest = *d;
        }
    }
    // The circumradius is 1, so the edge length is 4 / sqrt(10 + 2 sqrt(5)).
    let expected_edge = 4.0 / (10.0 + 2.0 * 5.0_f64.sqrt()).sqrt();
    assert!(close(shortest, expected_edge));

    let edges = distances.iter().filter(|d| close(**d, shortest)).count();
    assert_eq!(edges, 30);
    for d in &distances {
        assert!(close(*d, shortest) || *d > shortest + 1e-6);
    }
}

#[test]
fn bisection_finds_equal_edge_parameter() {
    let mut t = Val::from_i64(1);
    let mut adjust = t.dup();
    for _ in 0..60 {
        let delta = val_f64(&edge_delta(&t)).unwrap();
        let (moved, next) = solver_step(&t, &adjust, delta > 0.0);
        t = moved;
        adjust = next;
    }
    let solved = val_f64(&t).unwrap();
    // The parameter value hard-coded into the truncated-icosahedron export.
    assert!((solved - 0.6329870724964068).abs() < 1e-12);
}
