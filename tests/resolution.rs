use hk_trading::Resolution;

const CATALOG: [(Resolution, i64); 8] = [
    (Resolution::M1, 60),
    (Resolution::M5, 300),
    (Resolution::M15, 900),
    (Resolution::M30, 1800),
    (Resolution::H1, 3600),
    (Resolution::H4, 14400),
    (Resolution::D1, 86400),
    (Resolution::W1, 604800),
];

#[test]
fn seconds_of_each_period() {
    for (r, s) in CATALOG {
        assert_eq!(r.to_seconds(), s);
    }
}

#[test]
fn milliseconds_of_each_period() {
    assert_eq!(Resolution::M1.to_milliseconds(), 60_000);
    assert_eq!(Resolution::H4.to_milliseconds(), 14_400_000);
    assert_eq!(Resolution::W1.to_milliseconds(), 604_800_000);
}

#[test]
fn from_seconds_round_trips_every_period() {
    for (r, _) in CATALOG {
        assert_eq!(Resolution::from_seconds(r.to_seconds()), Some(r));
    }
}

#[test]
fn from_seconds_rejects_other_lengths() {
    assert_eq!(Resolution::from_seconds(61), None);
    assert_eq!(Resolution::from_seconds(0), None);
    assert_eq!(Resolution::from_seconds(-60), None);
    assert_eq!(Resolution::from_seconds(i64::MAX), None);
}

#[test]
fn default_period_is_one_minute() {
    assert_eq!(Resolution::default(), Resolution::M1);
}
