use themer::{LocationInfo, Theme, TimeOfDay};
use themer::poller::{should_reapply, Poller};

fn standard_day() -> LocationInfo {
    // sunset 18:00:00, sunrise 06:00:00
    LocationInfo::new(TimeOfDay::new(18, 0, 0), TimeOfDay::new(6, 0, 0))
}

#[test]
fn classify_inside_window_is_day() {
    let info = standard_day();
    assert_eq!(info.classify(TimeOfDay::new(7, 0, 0)), Theme::Day);
    assert_eq!(info.classify(TimeOfDay::new(12, 30, 45)), Theme::Day);
}

#[test]
fn classify_boundaries_are_day() {
    let info = standard_day();
    assert_eq!(info.classify(TimeOfDay::new(6, 0, 0)), Theme::Day);
    assert_eq!(info.classify(TimeOfDay::new(18, 0, 0)), Theme::Day);
}

#[test]
fn classify_outside_window_is_night() {
    let info = standard_day();
    assert_eq!(info.classify(TimeOfDay::new(5, 59, 59)), Theme::Night);
    assert_eq!(info.classify(TimeOfDay::new(18, 0, 1)), Theme::Night);
    assert_eq!(info.classify(TimeOfDay::new(0, 0, 0)), Theme::Night);
    assert_eq!(info.classify(TimeOfDay::new(23, 59, 59)), Theme::Night);
}

#[test]
fn sentinel_is_always_day() {
    let s = LocationInfo::sentinel();
    assert_eq!(s.classify(TimeOfDay::new(0, 0, 0)), Theme::Day);
    assert_eq!(s.classify(TimeOfDay::new(0, 0, 1)), Theme::Day);
    assert_eq!(s.classify(TimeOfDay::new(12, 0, 0)), Theme::Day);
    assert_eq!(s.classify(TimeOfDay::new(23, 59, 59)), Theme::Day);
}

#[test]
fn get_theme_on_sentinel_is_day() {
    // whatever the clock reads, the sentinel classifies it as Day
    assert_eq!(LocationInfo::sentinel().get_theme(), Theme::Day);
}

#[test]
fn encode_exact_bytes() {
    let info = standard_day();
    assert_eq!(info.cache_encode(), b"18:00:00,06:00:00".to_vec());
    let s = LocationInfo::sentinel();
    assert_eq!(s.cache_encode(), b"23:59:59,00:00:00".to_vec());
}

#[test]
fn decode_exact_value() {
    let got = LocationInfo::cache_decode(&b"18:00:00,06:00:00".to_vec());
    assert_eq!(got, Some(standard_day()));
}

#[test]
fn cache_round_trip() {
    let pairs = [
        standard_day(),
        LocationInfo::sentinel(),
        LocationInfo::new(TimeOfDay::new(23, 59, 59), TimeOfDay::new(0, 0, 0)),
        LocationInfo::new(TimeOfDay::new(1, 2, 3), TimeOfDay::new(4, 5, 6)),
        LocationInfo::new(TimeOfDay::new(10, 20, 30), TimeOfDay::new(10, 20, 30)),
    ];
    for info in pairs {
        let bytes = info.cache_encode();
        assert_eq!(LocationInfo::cache_decode(&bytes), Some(info));
    }
}

#[test]
fn decode_empty_is_none() {
    assert_eq!(LocationInfo::cache_decode(&Vec::new()), None);
}

#[test]
fn decode_wrong_field_count_is_none() {
    assert_eq!(LocationInfo::cache_decode(&b"06:00:00".to_vec()), None);
    assert_eq!(
        LocationInfo::cache_decode(&b"06:00:00,07:00:00,08:00:00".to_vec()),
        None
    );
}

#[test]
fn decode_unparsable_time_is_none() {
    assert_eq!(LocationInfo::cache_decode(&b"25:00:00,06:00:00".to_vec()), None);
    assert_eq!(LocationInfo::cache_decode(&b"18:00:00,06:60:00".to_vec()), None);
    assert_eq!(LocationInfo::cache_decode(&b"18:00:00,06:00:60".to_vec()), None);
    assert_eq!(LocationInfo::cache_decode(&b"aa:bb:cc,06:00:00".to_vec()), None);
    assert_eq!(LocationInfo::cache_decode(&b"18.00.00,06:00:00".to_vec()), None);
}

#[test]
fn decode_wrong_separator_is_none() {
    assert_eq!(LocationInfo::cache_decode(&b"18:00:00;06:00:00".to_vec()), None);
    assert_eq!(LocationInfo::cache_decode(&b"18:00:00,06:00:0 ".to_vec()), None);
}

#[test]
fn decode_trailing_bytes_is_none() {
    assert_eq!(LocationInfo::cache_decode(&b"18:00:00,06:00:00\n".to_vec()), None);
}

#[test]
fn from_solar_daylight_keeps_pair() {
    let rise = TimeOfDay::new(6, 0, 0);
    let set = TimeOfDay::new(18, 0, 0);
    let info = LocationInfo::from_solar(Some((rise, set)));
    assert_eq!(info.sunrise, rise);
    assert_eq!(info.sunset, set);
}

#[test]
fn from_solar_polar_is_sentinel() {
    let info = LocationInfo::from_solar(None);
    assert_eq!(info, LocationInfo::sentinel());
    assert_eq!(info.sunset, TimeOfDay::new(23, 59, 59));
    assert_eq!(info.sunrise, TimeOfDay::new(0, 0, 0));
}

#[test]
fn should_reapply_on_cold_start() {
    assert!(should_reapply(None, standard_day()));
}

#[test]
fn should_reapply_on_changed_location() {
    let other = LocationInfo::new(TimeOfDay::new(19, 0, 0), TimeOfDay::new(5, 0, 0));
    assert!(should_reapply(Some(other), standard_day()));
}

#[test]
fn no_reapply_on_identical_cache() {
    assert!(!should_reapply(Some(standard_day()), standard_day()));
}

#[test]
fn poller_emits_only_on_transition() {
    // startup at 07:00:00: Day is in force
    let mut p = Poller::start(standard_day(), TimeOfDay::new(7, 0, 0));

    // ticks inside the daylight window: no emission
    assert_eq!(p.tick(TimeOfDay::new(7, 0, 30)), None);
    assert_eq!(p.tick(TimeOfDay::new(12, 0, 0)), None);
    assert_eq!(p.tick(TimeOfDay::new(18, 0, 0)), None);

    // the first tick past sunset emits Night, exactly once
    assert_eq!(p.tick(TimeOfDay::new(18, 0, 1)), Some(Theme::Night));
    assert_eq!(p.tick(TimeOfDay::new(18, 0, 31)), None);
    assert_eq!(p.tick(TimeOfDay::new(23, 0, 0)), None);
}

#[test]
fn poller_emits_once_per_run_of_equal_classifications() {
    let mut p = Poller::start(standard_day(), TimeOfDay::new(5, 0, 0));

    // night until sunrise, then one Day emission, then one Night emission
    assert_eq!(p.tick(TimeOfDay::new(5, 30, 0)), None);
    assert_eq!(p.tick(TimeOfDay::new(6, 0, 0)), Some(Theme::Day));
    assert_eq!(p.tick(TimeOfDay::new(6, 0, 30)), None);
    assert_eq!(p.tick(TimeOfDay::new(17, 59, 59)), None);
    assert_eq!(p.tick(TimeOfDay::new(18, 0, 1)), Some(Theme::Night));
    assert_eq!(p.tick(TimeOfDay::new(18, 1, 1)), None);
}
