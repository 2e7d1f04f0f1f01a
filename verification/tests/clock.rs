use chrono::{DateTime, Datelike, TimeZone, Timelike, Utc};
use weather::clock::{
    is_representable, seconds_past_hour, LocalInstant, EARLIEST_INSTANT, LATEST_INSTANT,
};

fn at(secs: i64) -> LocalInstant {
    LocalInstant::new(secs, 0).unwrap()
}

#[test]
fn clock_time_shows_hour_minute_and_half_of_day() {
    assert_eq!(at(1_700_000_000 - 21_600).clock_time(), "4:13 PM");
    assert_eq!(at(0).clock_time(), "12:00 AM");
    assert_eq!(at(12 * 3_600 + 7 * 60 + 59).clock_time(), "12:07 PM");
    assert_eq!(at(-1).clock_time(), "11:59 PM");
    assert_eq!(at(15 * 3_600 + 7 * 60).clock_time(), "3:07 PM");
    assert_eq!(at(9 * 3_600 + 5 * 60).clock_time(), "9:05 AM");
    assert_eq!(at(11 * 3_600 + 59 * 60 + 59).clock_time(), "11:59 AM");
    assert_eq!(at(23 * 3_600).clock_time(), "11:00 PM");
}

#[test]
fn hour_label_has_no_minutes() {
    assert_eq!(at(1_700_000_000 - 21_600).hour_label(), "4 PM");
    assert_eq!(at(3_600 * 15).hour_label(), "3 PM");
    assert_eq!(at(3_600 * 10 + 5).hour_label(), "10 AM");
    let expected = [
        "12 AM", "1 AM", "2 AM", "3 AM", "4 AM", "5 AM", "6 AM", "7 AM", "8 AM", "9 AM", "10 AM",
        "11 AM", "12 PM", "1 PM", "2 PM", "3 PM", "4 PM", "5 PM", "6 PM", "7 PM", "8 PM", "9 PM",
        "10 PM", "11 PM",
    ];
    for (hour, label) in expected.iter().enumerate() {
        assert_eq!(at(-86_400 + hour as i64 * 3_600 + 1_234).hour_label(), *label);
    }
}

#[test]
fn month_day_has_no_leading_zeros() {
    assert_eq!(at(1_700_000_000).month_day(), "11/14");
    assert_eq!(at(0).month_day(), "1/1");
    assert_eq!(at(1_688_428_800).month_day(), "7/4");
    assert_eq!(at(1_709_164_800).month_day(), "2/29");
    assert_eq!(at(1_709_251_199).month_day(), "2/29");
    assert_eq!(at(1_709_251_200).month_day(), "3/1");
    assert_eq!(at(-1).month_day(), "12/31");
    assert_eq!(at(951_782_400).month_day(), "2/29");
    assert_eq!(at(-2_203_891_200).month_day(), "3/1");
}

#[test]
fn local_instant_adds_the_offset() {
    assert_eq!(LocalInstant::new(1_700_000_000, -21_600).unwrap().seconds(), 1_699_978_400);
    assert_eq!(LocalInstant::new(1_700_000_000, 19_800).unwrap().seconds(), 1_700_019_800);
    assert_eq!(LocalInstant::new(-5, 5).unwrap().seconds(), 0);
    assert_eq!(LocalInstant::new(1_700_000_000, -21_600).unwrap().clock_time(), "4:13 PM");
    assert_eq!(LocalInstant::new(1_700_000_000, 19_800).unwrap().clock_time(), "3:43 AM");
    assert_eq!(LocalInstant::new(1_700_000_000, 19_800).unwrap().month_day(), "11/15");
}

#[test]
fn calendar_ends_where_stated() {
    assert_eq!(at(EARLIEST_INSTANT).clock_time(), "12:00 AM");
    assert_eq!(at(EARLIEST_INSTANT).hour_label(), "12 AM");
    assert_eq!(at(EARLIEST_INSTANT).month_day(), "1/1");
    assert_eq!(at(LATEST_INSTANT).clock_time(), "11:59 PM");
    assert_eq!(at(LATEST_INSTANT).hour_label(), "11 PM");
    assert_eq!(at(LATEST_INSTANT).month_day(), "12/31");
    assert!(LocalInstant::new(EARLIEST_INSTANT - 1, 0).is_none());
    assert!(LocalInstant::new(EARLIEST_INSTANT, -1).is_none());
    assert!(LocalInstant::new(LATEST_INSTANT + 1, 0).is_none());
    assert!(LocalInstant::new(LATEST_INSTANT, 1).is_none());
    assert!(LocalInstant::new(LATEST_INSTANT + 7_200, -7_200).is_some());
    assert!(LocalInstant::new(i64::MAX, 1).is_none());
    assert!(LocalInstant::new(i64::MIN, -1).is_none());
    assert!(LocalInstant::new(i64::MAX, i64::MAX).is_none());
    assert!(LocalInstant::new(i64::MIN, i64::MAX).is_some());
    assert!(is_representable(0));
    assert!(is_representable(EARLIEST_INSTANT) && is_representable(LATEST_INSTANT));
    assert!(!is_representable(EARLIEST_INSTANT - 1) && !is_representable(LATEST_INSTANT + 1));
}

#[test]
fn calendar_bounds_are_those_of_the_date_library() {
    assert!(DateTime::from_timestamp(EARLIEST_INSTANT, 0).is_some());
    assert!(DateTime::from_timestamp(EARLIEST_INSTANT - 1, 0).is_none());
    assert!(DateTime::from_timestamp(LATEST_INSTANT, 0).is_some());
    assert!(DateTime::from_timestamp(LATEST_INSTANT + 1, 0).is_none());
    assert!(DateTime::from_timestamp(i64::MIN, 0).is_none());
    assert!(DateTime::from_timestamp(i64::MAX, 0).is_none());
}

#[test]
fn seconds_past_hour_counts_from_the_hour_before() {
    assert_eq!(seconds_past_hour(0), 0);
    assert_eq!(seconds_past_hour(3_599), 3_599);
    assert_eq!(seconds_past_hour(3_600), 0);
    assert_eq!(seconds_past_hour(1_700_000_000), 800);
    assert_eq!(seconds_past_hour(-1), 3_599);
    assert_eq!(seconds_past_hour(-3_600), 0);
    assert_eq!(seconds_past_hour(-3_601), 3_599);
    assert_eq!(seconds_past_hour(i64::MIN), 1_792);
    assert_eq!(seconds_past_hour(i64::MAX), 1_807);
}

#[test]
fn same_hour_means_same_date_and_hour() {
    assert!(at(1_700_000_000).in_same_hour(&at(1_700_000_000 - 800)));
    assert!(at(1_700_000_000).in_same_hour(&at(1_700_000_000 + 2_799)));
    assert!(!at(1_700_000_000).in_same_hour(&at(1_700_000_000 + 2_800)));
    assert!(!at(1_700_000_000).in_same_hour(&at(1_700_000_000 - 801)));
    assert!(!at(1_700_000_000).in_same_hour(&at(1_700_000_000 + 86_400)));
    assert!(at(-1).in_same_hour(&at(-3_600)));
    assert!(!at(-1).in_same_hour(&at(0)));
    assert!(at(0).in_same_hour(&at(3_599)));
}

fn civil_hour(secs: i64) -> (i32, u32, u32, u32) {
    let date = DateTime::from_timestamp(secs, 0).unwrap();
    (date.year(), date.month(), date.day(), date.hour())
}

fn samples() -> Vec<i64> {
    let mut instants = vec![
        0,
        -1,
        1,
        3_599,
        3_600,
        -3_600,
        -3_601,
        86_399,
        86_400,
        -86_400,
        -86_401,
        1_700_000_000,
        951_782_400,
        -2_203_891_200,
        -62_135_596_800,
        -62_135_596_801,
        253_402_300_799,
        253_402_300_800,
        EARLIEST_INSTANT,
        EARLIEST_INSTANT + 3_599,
        EARLIEST_INSTANT + 3_600,
        LATEST_INSTANT,
        LATEST_INSTANT - 3_599,
        LATEST_INSTANT - 3_600,
    ];
    let mut seed: u64 = 0x2545_f491_4f6c_dd1d;
    for _ in 0..20_000 {
        seed = seed.wrapping_mul(6_364_136_223_846_793_005).wrapping_add(1_442_695_040_888_963_407);
        let span = (LATEST_INSTANT - EARLIEST_INSTANT) as u64 + 1;
        instants.push(EARLIEST_INSTANT + ((seed >> 11) % span) as i64);
        instants.push(((seed >> 20) % 8_000_000_000) as i64 - 4_000_000_000);
    }
    instants
}

#[test]
fn same_hour_agrees_with_calendar_fields() {
    let deltas = [
        0, 1, -1, 59, 60, 1_799, 3_599, 3_600, -3_599, -3_600, 3_601, 7_200, 43_200, 86_400,
        -86_400, 2_592_000, 31_536_000,
    ];
    for a in samples() {
        for delta in deltas {
            let b = a + delta;
            if b < EARLIEST_INSTANT || b > LATEST_INSTANT {
                continue;
            }
            assert_eq!(at(a).in_same_hour(&at(b)), civil_hour(a) == civil_hour(b));
        }
        let top = a - seconds_past_hour(a);
        assert!(at(a).in_same_hour(&at(top)));
        assert!(at(a).in_same_hour(&at(top + 3_599)));
        if top > EARLIEST_INSTANT {
            assert!(!at(a).in_same_hour(&at(top - 1)));
        }
        if top + 3_600 <= LATEST_INSTANT {
            assert!(!at(a).in_same_hour(&at(top + 3_600)));
        }
    }
}

#[test]
fn hour_start_agrees_with_calendar_fields() {
    for t in samples() {
        let (year, month, day, hour) = civil_hour(t);
        let top = Utc.with_ymd_and_hms(year, month, day, hour, 0, 0).unwrap().timestamp();
        assert_eq!(t - seconds_past_hour(t), top);
    }
}

#[test]
fn texts_agree_with_calendar_fields() {
    for t in samples() {
        let date = DateTime::from_timestamp(t, 0).unwrap();
        let (half, dial) = if date.hour() < 12 { ("AM", date.hour()) } else { ("PM", date.hour() - 12) };
        let dial = if dial == 0 { 12 } else { dial };
        assert_eq!(at(t).clock_time(), format!("{}:{:02} {}", dial, date.minute(), half));
        assert_eq!(at(t).hour_label(), format!("{} {}", dial, half));
        assert_eq!(at(t).month_day(), format!("{}/{}", date.month(), date.day()));
    }
}
