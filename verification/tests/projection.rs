use navcore::project::nearest_segment;

// Float measurement helpers, as a navigation frontend computes them:
// great-circle distance, and the projection of a position onto one
// segment in the latitude-cosine planar approximation. The straight
// line distance of each candidate is encoded as its IEEE bit pattern,
// whose unsigned order is the numeric order; the verified kernel picks
// the winning segment.

const EARTH_RADIUS_M: f64 = 6_371_008.8;

fn haversine(a: (f64, f64), b: (f64, f64)) -> f64 {
    let lat1 = a.0.to_radians();
    let lat2 = b.0.to_radians();
    let dlat = (b.0 - a.0).to_radians();
    let dlon = (b.1 - a.1).to_radians();
    let h = (dlat / 2.0).sin().powi(2) + lat1.cos() * lat2.cos() * (dlon / 2.0).sin().powi(2);
    2.0 * EARTH_RADIUS_M * h.sqrt().asin()
}

fn project_on_segment(p: (f64, f64), a: (f64, f64), b: (f64, f64)) -> (f64, f64) {
    let cos_lat = ((a.0 + b.0) / 2.0).to_radians().cos();

    let dx = (b.1 - a.1) * cos_lat;
    let dy = b.0 - a.0;
    let px = (p.1 - a.1) * cos_lat;
    let py = p.0 - a.0;

    let seg_len_sq = dx * dx + dy * dy;

    if seg_len_sq < 1e-20 {
        return a;
    }

    let t = ((px * dx + py * dy) / seg_len_sq).clamp(0.0, 1.0);

    (a.0 + t * (b.0 - a.0), a.1 + t * (b.1 - a.1))
}

struct Projection {
    point: (f64, f64),
    segment_index: usize,
    distance_m: f64,
    distance_along_m: f64,
}

fn project_on_track(position: (f64, f64), track: &[(f64, f64)]) -> Option<Projection> {
    if track.len() < 2 {
        return None;
    }
    let mut candidates = Vec::new();
    let mut keys = Vec::new();
    let mut cumulative = 0.0;
    for (i, w) in track.windows(2).enumerate() {
        let projected = project_on_segment(position, w[0], w[1]);
        let dist = haversine(position, projected);
        let along = cumulative + haversine(w[0], projected);
        keys.push(dist.to_bits());
        candidates.push((i, projected, dist, along));
        cumulative += haversine(w[0], w[1]);
    }
    let best = nearest_segment(&keys)?;
    let (segment_index, point, distance_m, distance_along_m) = candidates[best];
    Some(Projection { point, segment_index, distance_m, distance_along_m })
}

#[test]
fn project_on_track_midpoint() {
    // Track goes west-east, position is directly north of the midpoint.
    let track = [(48.0, 16.0), (48.0, 17.0)];
    let pos = (48.1, 16.5);

    let result = project_on_track(pos, &track).unwrap();
    assert!((result.point.0 - 48.0).abs() < 0.01);
    assert!((result.point.1 - 16.5).abs() < 0.01);
    assert_eq!(result.segment_index, 0);
    assert!(result.distance_m > 10_000.0); // ~11 km north
}

#[test]
fn project_on_track_start() {
    let track = [(48.0, 16.0), (48.0, 17.0)];
    let pos = (48.0, 15.5); // West of the start.

    let result = project_on_track(pos, &track).unwrap();
    // Should clamp to the start point.
    assert!((result.point.0 - 48.0).abs() < 0.01);
    assert!((result.point.1 - 16.0).abs() < 0.01);
}

#[test]
fn project_on_track_returns_none_for_single_point() {
    let track = [(48.0, 16.0)];
    assert!(project_on_track((48.0, 16.0), &track).is_none());
}

#[test]
fn project_on_track_multi_segment() {
    // L-shaped track: east then north.
    let track = [(48.0, 16.0), (48.0, 17.0), (49.0, 17.0)];
    // Position near the second segment.
    let pos = (48.5, 17.1);

    let result = project_on_track(pos, &track).unwrap();
    assert_eq!(result.segment_index, 1);
    assert!((result.point.1 - 17.0).abs() < 0.01);
}

#[test]
fn project_distance_along_increases() {
    let track = [(48.0, 16.0), (48.0, 16.5), (48.0, 17.0)];

    let positions = [(48.0, 16.1), (48.0, 16.2), (48.0, 16.45), (48.0, 16.8), (48.0, 16.95)];
    let mut prev = -1.0;
    for pos in positions {
        let along = project_on_track(pos, &track).unwrap().distance_along_m;
        assert!(along > prev, "distance along the track should increase");
        prev = along;
    }
}

#[test]
fn nearest_segment_ties_go_to_the_earlier() {
    // Two segments at the same distance: the earlier index wins.
    let keys = vec![7_u64, 3, 5, 3, 9];
    assert_eq!(nearest_segment(&keys), Some(1));
    assert_eq!(nearest_segment(&Vec::new()), None);
}

#[test]
fn haversine_same_point() {
    let p = (48.2082, 16.3738);
    assert!((haversine(p, p)).abs() < 0.01);
}

#[test]
fn track_length_simple() {
    let track = [(0.0, 0.0), (0.0, 1.0), (0.0, 2.0)];
    let len: f64 = track.windows(2).map(|w| haversine(w[0], w[1])).sum();
    // Each degree of longitude at the equator is ~111 km.
    assert!(len > 200_000.0 && len < 230_000.0, "Expected ~222 km, got {:.0} m", len);
}

#[test]
fn haversine_known_distance() {
    // Vienna to Bratislava, roughly 55 km.
    let vienna = (48.2082, 16.3738);
    let bratislava = (48.1486, 17.1077);
    let dist = haversine(vienna, bratislava);
    assert!(dist > 50_000.0 && dist < 60_000.0, "Expected ~55 km, got {:.0} m", dist);
}
