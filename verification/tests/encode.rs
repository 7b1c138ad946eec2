use svc_contact::encode::encode_path;
use svc_contact::geo::Coordinate;

fn point(x: i64, y: i64) -> Coordinate {
    Coordinate { x, y }
}

#[test]
fn test_encode_empty_path() {
    assert_eq!(encode_path(&vec![]), "");
}

#[test]
fn test_encode_reference_sequence() {
    // (38.5, -120.2), (40.7, -120.95), (43.252, -126.453) at five decimals.
    let path = vec![
        point(-12020000, 3850000),
        point(-12095000, 4070000),
        point(-12645300, 4325200),
    ];
    assert_eq!(encode_path(&path), "_p~iF~ps|U_ulLnnqC_mqNvxq`@");
}

#[test]
fn test_encode_off_globe_degrades_to_empty() {
    let path = vec![point(0, 9000001), point(1, 1)];
    assert_eq!(encode_path(&path), "");

    let path = vec![point(18000001, 0), point(1, 1)];
    assert_eq!(encode_path(&path), "");

    // The bounds themselves still encode.
    let path = vec![point(18000000, 9000000), point(-18000000, -9000000)];
    assert!(!encode_path(&path).is_empty());
}

#[test]
fn test_encode_matches_polyline_crate() {
    let cases: Vec<Vec<(i64, i64)>> = vec![
        vec![(-12020000, 3850000), (-12095000, 4070000), (-12645300, 4325200)],
        vec![(0, 0), (1, 1), (-1, -1), (0, 0)],
        vec![(250, -790), (250, -790)],
        vec![(17999999, 8999999)],
        vec![(-555, 333), (100000, -100000), (0, 0)],
    ];
    for case in cases {
        let path: Vec<Coordinate> = case.iter().map(|&(x, y)| point(x, y)).collect();
        let floats: Vec<geo_types::Coord<f64>> = case
            .iter()
            .map(|&(x, y)| geo_types::Coord {
                x: x as f64 / 100000.0,
                y: y as f64 / 100000.0,
            })
            .collect();
        let expected = polyline::encode_coordinates(floats, 5).unwrap();
        assert_eq!(encode_path(&path), expected);
    }
}

#[test]
fn test_encode_off_globe_matches_polyline_crate_failure() {
    // The reference implementation refuses a latitude beyond 90 degrees;
    // the library degrades to the same empty string the caller falls back
    // to.
    let floats = vec![
        geo_types::Coord { x: 0.0, y: 90.00001 },
        geo_types::Coord { x: 0.00001, y: 0.00001 },
    ];
    assert!(polyline::encode_coordinates(floats, 5).is_err());
    let path = vec![point(0, 9000001), point(1, 1)];
    assert_eq!(encode_path(&path), "");
}
