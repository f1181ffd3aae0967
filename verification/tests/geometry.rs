use molgeom::all_bond_lengths;
use molgeom::angle_triples;
use molgeom::bond_angles;
use molgeom::pair_count;
use molgeom::triple_count;
use molgeom::validate_record_count;
use molgeom::GeomError;
use molgeom::Ion;

fn ion(z_val: i32, x: f64, y: f64, z: f64) -> Ion {
    Ion { z_val, x: x.to_bits(), y: y.to_bits(), z: z.to_bits() }
}

fn dist(a: &Ion, b: &Ion) -> f64 {
    let (ax, ay, az) = (f64::from_bits(a.x), f64::from_bits(a.y), f64::from_bits(a.z));
    let (bx, by, bz) = (f64::from_bits(b.x), f64::from_bits(b.y), f64::from_bits(b.z));
    ((ax - bx).powi(2) + (ay - by).powi(2) + (az - bz).powi(2)).sqrt()
}

fn angle_at_vertex(arm_i: &Ion, vertex: &Ion, arm_k: &Ion) -> f64 {
    let v = |a: &Ion, b: &Ion| {
        (
            f64::from_bits(b.x) - f64::from_bits(a.x),
            f64::from_bits(b.y) - f64::from_bits(a.y),
            f64::from_bits(b.z) - f64::from_bits(a.z),
        )
    };
    let e_ji = v(vertex, arm_i);
    let e_jk = v(vertex, arm_k);
    let dot = e_ji.0 * e_jk.0 + e_ji.1 * e_jk.1 + e_ji.2 * e_jk.2;
    (dot / (dist(vertex, arm_i) * dist(vertex, arm_k))).acos()
}

/// Lower-triangle distances in canonical pair order: i over 0..n, j over 0..i.
fn triangle_of(mol: &Vec<Ion>) -> Vec<u64> {
    let mut tri: Vec<u64> = Vec::new();
    for i in 0..mol.len() {
        for j in 0..i {
            tri.push(dist(&mol[i], &mol[j]).to_bits());
        }
    }
    tri
}

/// Angle values in canonical triple order: vertex is the middle index j.
fn arcs_of(mol: &Vec<Ion>) -> Vec<u64> {
    let mut arc: Vec<u64> = Vec::new();
    for (k, j, i) in angle_triples(mol.len()) {
        arc.push(angle_at_vertex(&mol[i], &mol[j], &mol[k]).to_bits());
    }
    arc
}

#[test]
fn pair_count_small_values() {
    let expected: Vec<usize> = vec![0, 0, 1, 3, 6, 10];
    for (n, want) in expected.into_iter().enumerate() {
        assert_eq!(pair_count(n), Some(want));
    }
}

#[test]
fn triple_count_small_values() {
    let expected: Vec<usize> = vec![0, 0, 0, 1, 4, 10, 20];
    for (n, want) in expected.into_iter().enumerate() {
        assert_eq!(triple_count(n), Some(want));
    }
    // the (n-2)-th trigonal-pyramidal number, (3m^2 + m^3 + 2m)/6 with m = 8
    assert_eq!(triple_count(10), Some(120));
}

#[test]
fn record_count_match_is_ok() {
    assert_eq!(validate_record_count(3, 3), Ok(()));
}

#[test]
fn record_count_short_is_mismatch() {
    assert_eq!(validate_record_count(3, 2), Err(GeomError::RecordCountMismatch));
}

#[test]
fn record_count_long_is_mismatch() {
    assert_eq!(validate_record_count(3, 4), Err(GeomError::RecordCountMismatch));
}

#[test]
fn lengths_need_two_atoms() {
    let tri: Vec<u64> = Vec::new();
    assert_eq!(all_bond_lengths(0, &tri), Err(GeomError::InsufficientAtoms));
    assert_eq!(all_bond_lengths(1, &tri), Err(GeomError::InsufficientAtoms));
}

#[test]
fn lengths_matrix_symmetric_zero_diagonal() {
    let mol: Vec<Ion> = vec![
        ion(8, 0.0, 0.0, 0.0),
        ion(1, 3.0, 0.0, 0.0),
        ion(1, 0.0, 4.0, 0.0),
    ];
    let tri = triangle_of(&mol);
    assert_eq!(tri.len(), pair_count(mol.len()).unwrap());
    let m = all_bond_lengths(mol.len(), &tri).unwrap();
    assert_eq!(m.len(), 3);
    for i in 0..3 {
        assert_eq!(m[i].len(), 3);
        assert_eq!(f64::from_bits(m[i][i]), 0.0);
        for j in 0..3 {
            assert_eq!(m[i][j], m[j][i]);
        }
    }
    assert_eq!(f64::from_bits(m[1][0]), 3.0);
    assert_eq!(f64::from_bits(m[2][0]), 4.0);
    assert_eq!(f64::from_bits(m[2][1]), 5.0);
}

#[test]
fn lengths_matrix_recomputation_is_bit_identical() {
    let mol: Vec<Ion> = vec![
        ion(6, 0.1, -2.5, 3.75),
        ion(1, 1.0, 0.25, -0.5),
        ion(1, -7.25, 0.0, 2.0),
        ion(8, 4.5, 4.5, 4.5),
    ];
    let tri = triangle_of(&mol);
    let first = all_bond_lengths(mol.len(), &tri).unwrap();
    let second = all_bond_lengths(mol.len(), &tri).unwrap();
    assert_eq!(first, second);
}

#[test]
fn angle_triples_canonical_order() {
    let triples = angle_triples(4);
    assert_eq!(triples, vec![(0, 1, 2), (0, 1, 3), (0, 2, 3), (1, 2, 3)]);
}

#[test]
fn angle_triples_count_and_uniqueness() {
    let n: usize = 7;
    let triples = angle_triples(n);
    // exactly C(7, 3) records
    assert_eq!(triples.len(), triple_count(n).unwrap());
    assert_eq!(triples.len(), 35);
    for a in 0..triples.len() {
        let (k, j, i) = triples[a];
        assert!(k < j && j < i && i < n);
        for b in 0..a {
            assert_ne!(triples[a], triples[b]);
        }
    }
}

#[test]
fn angles_need_three_atoms() {
    let mol: Vec<Ion> = vec![ion(1, 0.0, 0.0, 0.0), ion(1, 1.0, 0.0, 0.0)];
    let arc: Vec<u64> = Vec::new();
    assert_eq!(bond_angles(&mol, &arc), Err(GeomError::InsufficientAtoms));
}

#[test]
fn collinear_triple_gives_pi() {
    let mol: Vec<Ion> = vec![
        ion(1, 0.0, 0.0, 0.0),
        ion(1, 1.0, 0.0, 0.0),
        ion(1, 2.0, 0.0, 0.0),
    ];
    let arc = arcs_of(&mol);
    let records = bond_angles(&mol, &arc).unwrap();
    assert_eq!(records.len(), 1);
    let (k, j, i, bits) = records[0];
    assert_eq!((k, j, i), (0, 1, 2));
    let angle = f64::from_bits(bits);
    assert!((angle - std::f64::consts::PI).abs() < 1e-12);
}

#[test]
fn right_angle_triple_gives_half_pi() {
    // vertex is index 1 (the middle index of the canonical triple)
    let mol: Vec<Ion> = vec![
        ion(1, 1.0, 0.0, 0.0),
        ion(8, 0.0, 0.0, 0.0),
        ion(1, 0.0, 1.0, 0.0),
    ];
    let arc = arcs_of(&mol);
    let records = bond_angles(&mol, &arc).unwrap();
    assert_eq!(records.len(), 1);
    let (k, j, i, bits) = records[0];
    assert_eq!((k, j, i), (0, 1, 2));
    let angle = f64::from_bits(bits);
    assert!((angle - std::f64::consts::FRAC_PI_2).abs() < 1e-12);
}

#[test]
fn angle_records_recomputation_is_bit_identical() {
    let mol: Vec<Ion> = vec![
        ion(8, 0.0, 0.0, 0.1),
        ion(1, 0.75, 0.5, 0.0),
        ion(1, -0.75, 0.5, 0.0),
        ion(6, 0.0, -1.25, 0.5),
    ];
    let arc = arcs_of(&mol);
    let first = bond_angles(&mol, &arc).unwrap();
    let second = bond_angles(&mol, &arc).unwrap();
    assert_eq!(first, second);
    assert_eq!(first.len(), 4);
}

#[test]
fn zero_length_arm_is_degenerate() {
    // atoms 0 and 1 coincide; the arm from vertex 1 to atom 0 has zero length
    let mol: Vec<Ion> = vec![
        ion(1, 0.0, 0.0, 0.0),
        ion(1, 0.0, 0.0, 0.0),
        ion(1, 1.0, 1.0, 1.0),
    ];
    let arc: Vec<u64> = vec![0u64];
    assert_eq!(bond_angles(&mol, &arc), Err(GeomError::DegenerateGeometry));
}

#[test]
fn signed_zero_coordinates_coincide() {
    let a = ion(1, 0.0, 0.0, 0.0);
    let b = ion(1, -0.0, 0.0, -0.0);
    assert!(a.coincides(&b));
    let mol: Vec<Ion> = vec![a, b, ion(1, 1.0, 1.0, 1.0)];
    let arc: Vec<u64> = vec![0u64];
    assert_eq!(bond_angles(&mol, &arc), Err(GeomError::DegenerateGeometry));
}

#[test]
fn coincident_arm_tips_are_not_degenerate() {
    // atoms 0 and 2 coincide, but neither arm from the vertex (index 1) has
    // zero length: the angle is defined (and is 0)
    let mol: Vec<Ion> = vec![
        ion(1, 1.0, 0.0, 0.0),
        ion(1, 0.0, 0.0, 0.0),
        ion(1, 1.0, 0.0, 0.0),
    ];
    let arc = arcs_of(&mol);
    let records = bond_angles(&mol, &arc).unwrap();
    assert_eq!(records.len(), 1);
    assert_eq!(f64::from_bits(records[0].3), 0.0);
}

#[test]
fn coincides_compares_positions_not_tags() {
    let a = ion(1, 1.5, -2.0, 0.5);
    let b = ion(9, 1.5, -2.0, 0.5);
    let c = ion(1, 1.5, -2.0, 0.25);
    assert!(a.coincides(&b));
    assert!(!a.coincides(&c));
}

#[test]
fn error_descriptions() {
    assert_eq!(
        GeomError::RecordCountMismatch.describe(),
        "number of atoms != number of data points"
    );
    assert_eq!(
        GeomError::InsufficientAtoms.describe(),
        "too few atoms for the requested operation"
    );
    assert_eq!(
        GeomError::DegenerateGeometry.describe(),
        "degenerate geometry: angle undefined"
    );
}
