use road_race::text::decimal_string;
use road_race::text::health_label;
use road_race::text::score_label;

#[test]
fn decimal_rendering_is_exact() {
    assert_eq!(decimal_string(0), "0");
    assert_eq!(decimal_string(7), "7");
    assert_eq!(decimal_string(10), "10");
    assert_eq!(decimal_string(42), "42");
    assert_eq!(decimal_string(1000), "1000");
    assert_eq!(decimal_string(18_446_744_073_709_551_615), "18446744073709551615");
}

#[test]
fn score_label_text() {
    assert_eq!(score_label(0), "Score : 0");
    assert_eq!(score_label(12), "Score : 12");
}

#[test]
fn health_label_text() {
    assert_eq!(health_label(3), "Health: 3");
    assert_eq!(health_label(0), "Health: 0");
}
