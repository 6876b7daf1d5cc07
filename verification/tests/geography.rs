use lidar_satellite::geography::{DmsGpsPoint, DMS};

fn decimal_degrees(dms: &DMS) -> f64 {
    (dms.arcseconds() as f64) / 3600.0
}

#[test]
fn test_dms_to_decimal() {
    // point taken from Wikipedia.
    let dms_pt = DmsGpsPoint::new(DMS::new(38, 53, 23), DMS::new(-77, 0, -32));

    let latitude = decimal_degrees(&dms_pt.latitude);
    let longitude = decimal_degrees(&dms_pt.longitude);
    assert!((latitude - 38.8897).abs() < 1e-3);
    assert!((longitude - -77.0089) < 1e-3);
    assert!((longitude - -77.0089).abs() < 1e-3);
}

#[test]
fn dms_new_keeps_its_terms() {
    let dms = DMS::new(-77, 0, -32);
    assert_eq!(dms.degrees, -77);
    assert_eq!(dms.minutes, 0);
    assert_eq!(dms.seconds, -32);
    assert_eq!(dms, DMS { degrees: -77, minutes: 0, seconds: -32 });
}

#[test]
fn arcseconds_exact_values() {
    assert_eq!(DMS::new(38, 53, 23).arcseconds(), 140003);
    assert_eq!(DMS::new(-77, 0, -32).arcseconds(), -277232);
    assert_eq!(DMS::new(0, 0, 0).arcseconds(), 0);
    assert_eq!(DMS::new(1, 1, 1).arcseconds(), 3661);
}

#[test]
fn arcseconds_at_the_limits_of_the_terms() {
    let max = i32::MAX as i64;
    let min = i32::MIN as i64;
    assert_eq!(
        DMS::new(i32::MAX, i32::MAX, i32::MAX).arcseconds(),
        max * 3600 + max * 60 + max
    );
    assert_eq!(
        DMS::new(i32::MIN, i32::MIN, i32::MIN).arcseconds(),
        min * 3600 + min * 60 + min
    );
}

#[test]
fn gps_point_new_keeps_latitude_and_longitude() {
    let lat = DMS::new(38, 53, 23);
    let lon = DMS::new(-77, 0, -32);
    let pt = DmsGpsPoint::new(lat, lon);
    assert_eq!(pt.latitude, lat);
    assert_eq!(pt.longitude, lon);
}
