use lodestone_polygon::{FeaturePolygon, Point, PolygonError};
use lodestone_polygon::utils::compare_rings;

use lodestone_polygon::utils::DEGREE as DEG;

fn pt(lng: i64, lat: i64) -> Point {
    Point { lng, lat }
}

#[test]
fn test_valid_coordinates() {
    let coords = vec![vec![
        pt(1 * DEG, 1 * DEG),
        pt(2 * DEG, 2 * DEG),
        pt(2 * DEG, 1 * DEG),
        pt(1 * DEG, 1 * DEG),
    ]];
    let polygon = FeaturePolygon::new(coords).unwrap();

    // Encode as a GeoJSON feature envelope and check that the exact ring
    // structure comes back: one ring of four points, closed.
    let rings: Vec<Vec<Vec<f64>>> = polygon
        .coordinates()
        .iter()
        .map(|ring| {
            ring.iter()
                .map(|p| vec![p.lng as f64 / 1e9, p.lat as f64 / 1e9])
                .collect()
        })
        .collect();
    let geometry = geojson::Geometry::new(geojson::Value::Polygon(rings));
    let feature = geojson::Feature {
        bbox: None,
        geometry: Some(geometry),
        id: None,
        properties: Some(serde_json::Map::new()),
        foreign_members: None,
    };
    let encoded = serde_json::to_string(&feature).unwrap();
    let value: serde_json::Value = serde_json::from_str(&encoded).unwrap();

    assert_eq!(value["type"], serde_json::Value::String("Feature".to_string()));
    assert_eq!(
        value["geometry"]["type"],
        serde_json::Value::String("Polygon".to_string())
    );
    let ring = &value["geometry"]["coordinates"][0];
    let expected = [[1.0, 1.0], [2.0, 2.0], [2.0, 1.0], [1.0, 1.0]];
    assert_eq!(ring.as_array().unwrap().len(), 4);
    for (i, exp) in expected.iter().enumerate() {
        assert_eq!(ring[i][0].as_f64().unwrap(), exp[0]);
        assert_eq!(ring[i][1].as_f64().unwrap(), exp[1]);
    }
    assert_eq!(ring[0], ring[3]);
    assert_eq!(
        value["properties"],
        serde_json::Value::Object(serde_json::Map::new())
    );
}

#[test]
fn test_invalid_ring_coords_count() {
    let coords = vec![vec![pt(1 * DEG, 1 * DEG), pt(2 * DEG, 2 * DEG), pt(1 * DEG, 1 * DEG)]];
    assert_eq!(FeaturePolygon::new(coords), Err(PolygonError::RingTooShort));
}

#[test]
fn test_invalid_ring_coords() {
    let coords = vec![vec![
        pt(1 * DEG, 1 * DEG),
        pt(2 * DEG, 2 * DEG),
        pt(2 * DEG, 1 * DEG),
        pt(3 * DEG, 3 * DEG),
    ]];
    assert_eq!(FeaturePolygon::new(coords), Err(PolygonError::RingNotClosed));
}

#[test]
fn test_empty_coordinates() {
    assert_eq!(FeaturePolygon::new(vec![]), Err(PolygonError::NoRings));
}

#[test]
fn test_short_ring_reported_before_closure() {
    // A two-point open ring is reported as too short, not as unclosed.
    let coords = vec![vec![pt(0, 0), pt(1 * DEG, 1 * DEG)]];
    assert_eq!(FeaturePolygon::new(coords), Err(PolygonError::RingTooShort));
}

fn square(shift_lng: i64, shift_lat: i64) -> FeaturePolygon {
    let ring = vec![
        pt(0 + shift_lng, 0 + shift_lat),
        pt(0 + shift_lng, 1 * DEG + shift_lat),
        pt(1 * DEG + shift_lng, 1 * DEG + shift_lat),
        pt(1 * DEG + shift_lng, 0 + shift_lat),
        pt(0 + shift_lng, 0 + shift_lat),
    ];
    FeaturePolygon::new(vec![ring]).unwrap()
}

#[test]
fn test_eq_within_tolerance() {
    // 50 nano-degrees = 5e-8 degrees, under the 1e-7 tolerance.
    assert_eq!(square(0, 0), square(50, 0));
    assert_eq!(square(0, 0), square(99, 99));
    assert_eq!(square(0, 0), square(-50, 30));
}

#[test]
fn test_eq_beyond_tolerance() {
    // 1000 nano-degrees = 1e-6 degrees: well out of tolerance.
    assert_ne!(square(0, 0), square(1000, 0));
    assert_ne!(square(0, 0), square(0, -1000));
    // Exactly 1e-7 is already not "less than" the tolerance.
    assert_ne!(square(0, 0), square(100, 0));
}

#[test]
fn test_eq_different_ring_counts() {
    let ring = vec![pt(0, 0), pt(0, DEG), pt(DEG, DEG), pt(DEG, 0), pt(0, 0)];
    let hole = vec![
        pt(DEG / 4, DEG / 4),
        pt(DEG / 4, DEG / 2),
        pt(DEG / 2, DEG / 2),
        pt(DEG / 4, DEG / 4),
    ];
    let with_hole = FeaturePolygon::new(vec![ring.clone(), hole]).unwrap();
    let without = FeaturePolygon::new(vec![ring]).unwrap();
    assert_ne!(with_hole, without);
}

#[test]
fn test_compare_rings_matching() {
    let a = vec![pt(0, 0), pt(0, DEG), pt(DEG, DEG), pt(0, 0)];
    let b = vec![pt(10, -10), pt(-20, DEG + 5), pt(DEG, DEG - 99), pt(0, 0)];
    assert!(compare_rings(&a, &b));
}

#[test]
fn test_compare_rings_mismatch() {
    let a = vec![pt(0, 0), pt(0, DEG), pt(DEG, DEG), pt(0, 0)];
    let far = vec![pt(0, 0), pt(0, DEG + 200), pt(DEG, DEG), pt(0, 0)];
    assert!(!compare_rings(&a, &far));
    // Rings of different lengths are never equal.
    let shorter = vec![pt(0, 0), pt(0, DEG), pt(DEG, DEG)];
    assert!(!compare_rings(&a, &shorter));
}

#[test]
fn test_coordinates_round_trip() {
    let ring = vec![pt(3, 4), pt(5, 6), pt(7, 8), pt(3, 4)];
    let polygon = FeaturePolygon::new(vec![ring.clone()]).unwrap();
    assert_eq!(polygon.coordinates(), &vec![ring]);
}
