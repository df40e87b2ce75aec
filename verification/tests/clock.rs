use ddr_score::clock::stamp;

#[test]
fn the_epoch() {
    assert_eq!(stamp(0), Some("1970-01-01T00:00:00Z".to_string()));
}

#[test]
fn a_day_in_may() {
    assert_eq!(stamp(1714564800), Some("2024-05-01T12:00:00Z".to_string()));
    assert_eq!(stamp(1714564799), Some("2024-05-01T11:59:59Z".to_string()));
}

#[test]
fn before_the_epoch() {
    assert_eq!(stamp(-1), Some("1969-12-31T23:59:59Z".to_string()));
}

#[test]
fn a_leap_day() {
    assert_eq!(stamp(951782400), Some("2000-02-29T00:00:00Z".to_string()));
}

#[test]
fn an_instant_without_a_date() {
    assert_eq!(stamp(i64::MAX), None);
    assert_eq!(stamp(i64::MIN), None);
}
