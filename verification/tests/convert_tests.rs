use brightr::{to_percent, from_percent};

#[test]
fn half_of_255_is_50_percent() {
    assert_eq!(to_percent(128, 255), 50);
}

#[test]
fn sixty_percent_of_255_is_153() {
    assert_eq!(from_percent(60, 255), 153);
}

#[test]
fn conversion_rounds_to_nearest() {
    // 1/3 of the scale is 33.3…%; 2/3 is 66.7…%.
    assert_eq!(to_percent(1, 3), 33);
    assert_eq!(to_percent(2, 3), 67);
}

#[test]
fn conversion_rounds_half_up() {
    // 10% of 255 is 25.5 raw units.
    assert_eq!(from_percent(10, 255), 26);
}

#[test]
fn zero_and_full_scale() {
    assert_eq!(to_percent(0, 255), 0);
    assert_eq!(to_percent(255, 255), 100);
    assert_eq!(from_percent(0, 255), 0);
    assert_eq!(from_percent(100, 255), 255);
}

#[test]
fn reading_above_max_gives_above_100() {
    assert_eq!(to_percent(300, 100), 300);
}

#[test]
fn percent_above_100_overshoots_max() {
    assert_eq!(from_percent(200, 100), 200);
}

#[test]
fn round_trip_exact_when_max_divides() {
    // max = 100 divides 100 * raw evenly for every raw.
    for raw in 0..=100u32 {
        assert_eq!(from_percent(to_percent(raw, 100) as u32, 100), raw as u64);
    }
}

#[test]
fn round_trip_within_one_on_coarse_scale() {
    for max in 1..=100u32 {
        for raw in 0..=max {
            let back = from_percent(to_percent(raw, max) as u32, max);
            assert!(raw as u64 <= back && back <= raw as u64 + 1);
        }
    }
}

#[test]
fn to_percent_monotone_on_255_scale() {
    for raw in 0..255u32 {
        assert!(to_percent(raw, 255) <= to_percent(raw + 1, 255));
    }
}

#[test]
fn from_percent_monotone_on_255_scale() {
    for pct in 0..200u32 {
        assert!(from_percent(pct, 255) <= from_percent(pct + 1, 255));
    }
}
