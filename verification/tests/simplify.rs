use navcore::simplify::{max_deviation, rdp_simplify};

// Perpendicular distance from a point to a chord in a local planar
// approximation (latitude-cosine scaled meters), as a navigation
// frontend measures it. The non-negative result is encoded as its IEEE
// bit pattern, whose unsigned order is the numeric order.

fn perpendicular_distance_m(p: (f64, f64), a: (f64, f64), b: (f64, f64)) -> f64 {
    let cos_lat = ((a.0 + b.0) / 2.0).to_radians().cos();
    let m_per_deg_lat = 111_320.0;
    let m_per_deg_lon = 111_320.0 * cos_lat;

    let ax = a.1 * m_per_deg_lon;
    let ay = a.0 * m_per_deg_lat;
    let bx = b.1 * m_per_deg_lon;
    let by = b.0 * m_per_deg_lat;
    let px = p.1 * m_per_deg_lon;
    let py = p.0 * m_per_deg_lat;

    let dx = bx - ax;
    let dy = by - ay;
    let len_sq = dx * dx + dy * dy;

    if len_sq < 1e-10 {
        return ((px - ax).powi(2) + (py - ay).powi(2)).sqrt();
    }

    let cross = ((px - ax) * dy - (py - ay) * dx).abs();
    cross / len_sq.sqrt()
}

fn simplify_points(points: &[(f64, f64)], tolerance_m: f64) -> Vec<usize> {
    let pts = points.to_vec();
    let deviation = move |i: usize, s: usize, e: usize| -> u64 {
        perpendicular_distance_m(pts[i], pts[s], pts[e]).to_bits()
    };
    rdp_simplify(points.len(), tolerance_m.to_bits(), &deviation)
}

#[test]
fn rdp_simplify_two_points() {
    let points = [(0.0, 0.0), (1.0, 1.0)];
    let result = simplify_points(&points, 100.0);
    assert_eq!(result.len(), 2);
}

#[test]
fn rdp_simplify_straight_line() {
    // Points on a straight line should simplify to 2.
    let points = [
        (48.0, 16.0),
        (48.0, 16.005),
        (48.0, 16.01),
        (48.0, 16.015),
        (48.0, 16.02),
    ];

    let result = simplify_points(&points, 10.0);
    assert_eq!(result.len(), 2);
}

#[test]
fn track_to_route_preserves_endpoints() {
    let track = [(48.0, 16.0), (48.001, 16.001), (48.0, 16.002)];

    let kept = simplify_points(&track, 1000.0);
    // With high tolerance, only the endpoints remain.
    assert_eq!(kept.len(), 2);
    assert!((track[kept[0]].0 - 48.0).abs() < 1e-6);
    assert!((track[kept[1]].0 - 48.0).abs() < 1e-6);
    assert_eq!(kept[0], 0);
    assert_eq!(kept[1], 2);
}

#[test]
fn track_to_route_keeps_sharp_turn() {
    // L-shaped track: a sharp turn should be preserved.
    let track = [
        (48.0, 16.0),
        (48.0, 16.01),
        (48.0, 16.02), // corner
        (48.01, 16.02),
        (48.02, 16.02),
    ];

    let kept = simplify_points(&track, 10.0);
    // The corner point should be preserved with low tolerance.
    assert!(kept.len() >= 3, "Expected at least 3 points, got {}", kept.len());
    assert!(kept.contains(&2));
}

#[test]
fn track_to_route_zero_tolerance() {
    let track = [(48.0, 16.0), (48.001, 16.001), (48.0, 16.002)];

    let kept = simplify_points(&track, 0.0);
    // With zero tolerance, all points are preserved.
    assert_eq!(kept.len(), 3);
}

#[test]
fn max_deviation_ties_go_to_the_first() {
    // Two equal maxima: the scan keeps the first one found.
    let keys = vec![1_u64, 9, 4, 9, 2];
    assert_eq!(max_deviation(&keys), (1, 9));
    assert_eq!(max_deviation(&vec![0_u64, 0, 0]), (0, 0));
}

#[test]
fn endpoints_survive_any_tolerance() {
    let track = [
        (48.0, 16.0),
        (48.003, 16.001),
        (48.001, 16.004),
        (48.006, 16.007),
        (48.002, 16.009),
    ];
    let tolerances = vec![0.0, 1.0, 10.0, 100.0, 100_000.0];
    for tol in tolerances {
        let kept = simplify_points(&track, tol);
        assert!(kept.len() >= 2);
        assert_eq!(kept[0], 0);
        assert_eq!(*kept.last().unwrap(), track.len() - 1);
    }
}

#[test]
fn larger_tolerance_keeps_no_more_points() {
    let track = [
        (48.0, 16.0),
        (48.003, 16.001),
        (48.001, 16.004),
        (48.006, 16.007),
        (48.002, 16.009),
        (48.009, 16.012),
        (48.004, 16.015),
    ];
    let tolerances = vec![0.0, 5.0, 20.0, 100.0, 500.0, 5_000.0];
    let mut prev_len = usize::MAX;
    for tol in tolerances {
        let len = simplify_points(&track, tol).len();
        assert!(len <= prev_len, "tolerance {tol} kept more points than a smaller one");
        prev_len = len;
    }
}
