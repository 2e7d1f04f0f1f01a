use weather::clock::LocalInstant;
use weather::display::current_conditions;
use weather::outlook::{daily_outlook, hourly_outlook, DAILY_WINDOW, HOURLY_WINDOW};
use weather::{
    CurrentForecast, DailyForecast, DailyForecastWithDateTime, ForecastError, HourlyForecast,
    HourlyForecastWithDateTime, IconTable, Temperature,
};

fn degrees(reading: f64) -> Temperature {
    Temperature::from_bits(reading.to_bits())
}

fn at(secs: i64) -> LocalInstant {
    LocalInstant::new(secs, 0).unwrap()
}

fn icons() -> IconTable {
    let mut icons = IconTable::new();
    for (key, href) in [("0", "sun"), ("0night", "moon"), ("61", "rain"), ("3", "cloud")] {
        icons.insert(key.to_string(), href.to_string());
    }
    icons
}

fn hour(secs: i64, reading: f64, code: u16, is_day: u8) -> HourlyForecastWithDateTime {
    HourlyForecastWithDateTime {
        date: at(secs),
        temperature: degrees(reading),
        weather_code: code,
        is_day,
    }
}

fn day(secs: i64, max: f64, min: f64, code: u16) -> DailyForecastWithDateTime {
    DailyForecastWithDateTime {
        date: at(secs),
        temperature_min: degrees(min),
        temperature_max: degrees(max),
        weather_code: code,
    }
}

fn shown_hour(date: &str, temperature: i32, icon: &str) -> HourlyForecast {
    HourlyForecast { date: date.to_string(), temperature, weather_code: icon.to_string() }
}

fn shown_day(date: &str, min: i32, max: i32, icon: &str) -> DailyForecast {
    DailyForecast {
        date: date.to_string(),
        temperature_min: min,
        temperature_max: max,
        weather_code: icon.to_string(),
    }
}

#[test]
fn window_sizes_are_a_day_of_hours_and_five_days() {
    assert_eq!(HOURLY_WINDOW, 24);
    assert_eq!(DAILY_WINDOW, 5);
}

#[test]
fn hourly_outlook_keeps_hours_from_the_boundary_on() {
    let hours = vec![
        hour(3_599, 1.5, 0, 1),
        hour(3_600, 2.5, 0, 0),
        hour(7_200, 3.5, 61, 0),
        hour(3_000, 4.5, 0, 1),
        hour(10_800, -5.5, 3, 1),
    ];
    assert_eq!(
        hourly_outlook(&hours, 3_600, &icons()),
        Ok(vec![
            shown_hour("1 AM", 2, "moon"),
            shown_hour("2 AM", 3, "rain"),
            shown_hour("3 AM", -5, "cloud"),
        ])
    );
    assert_eq!(hourly_outlook(&hours, 10_801, &icons()), Ok(vec![]));
    assert_eq!(hourly_outlook(&hours, i64::MAX, &icons()), Ok(vec![]));
    assert_eq!(hourly_outlook(&hours, i64::MIN, &icons()).unwrap().len(), 5);
    assert_eq!(hourly_outlook(&vec![], 0, &icons()), Ok(vec![]));
}

#[test]
fn hourly_outlook_length_is_the_count_up_to_a_day() {
    for count in [0usize, 1, 23, 24, 25, 60] {
        let mut hours = vec![hour(-3_600, 0.0, 0, 1), hour(-1, 0.0, 0, 1)];
        for i in 0..count {
            hours.push(hour(i as i64 * 3_600, i as f64, 0, 1));
        }
        let outlook = hourly_outlook(&hours, 0, &icons()).unwrap();
        assert_eq!(outlook.len(), count.min(24));
        for (k, shown) in outlook.iter().enumerate() {
            assert_eq!(shown.temperature, k as i32);
        }
    }
}

#[test]
fn hourly_outlook_needs_icons_only_for_what_it_shows() {
    let mut hours = vec![hour(-3_600, 0.0, 77, 1)];
    for i in 0..24 {
        hours.push(hour(i * 3_600, 0.0, 0, 1));
    }
    hours.push(hour(24 * 3_600, 0.0, 77, 1));
    assert_eq!(hourly_outlook(&hours, 0, &icons()).unwrap().len(), 24);
    hours[24].weather_code = 77;
    assert_eq!(hourly_outlook(&hours, 0, &icons()), Err(ForecastError::UnknownConditionCode));
    hours[24].weather_code = 61;
    hours[1].weather_code = 3;
    hours[1].is_day = 0;
    assert_eq!(hourly_outlook(&hours, 0, &icons()), Err(ForecastError::UnknownConditionCode));
}

#[test]
fn daily_outlook_skips_today() {
    let days = vec![
        day(0, 50.9, 40.9, 77),
        day(86_400, 51.9, 41.9, 0),
        day(2 * 86_400, 52.9, 42.9, 61),
    ];
    assert_eq!(
        daily_outlook(&days, &icons()),
        Ok(vec![shown_day("1/2", 41, 51, "sun"), shown_day("1/3", 42, 52, "rain")])
    );
    assert_eq!(daily_outlook(&vec![], &icons()), Ok(vec![]));
    assert_eq!(daily_outlook(&vec![day(0, 1.0, 1.0, 77)], &icons()), Ok(vec![]));
}

#[test]
fn daily_outlook_length_is_the_rest_up_to_five() {
    for count in 0..10usize {
        let mut days = vec![];
        for i in 0..count {
            days.push(day(i as i64 * 86_400, 1.0, 0.0, 0));
        }
        let outlook = daily_outlook(&days, &icons()).unwrap();
        assert_eq!(outlook.len(), count.saturating_sub(1).min(5));
        for (k, shown) in outlook.iter().enumerate() {
            assert_eq!(shown.date, format!("1/{}", k + 2));
        }
    }
}

#[test]
fn daily_outlook_uses_day_icons_and_needs_them_for_what_it_shows() {
    let mut days = vec![];
    for i in 0..8 {
        days.push(day(i * 86_400, 1.0, 0.0, 0));
    }
    days[7].weather_code = 77;
    days[6].weather_code = 77;
    assert_eq!(daily_outlook(&days, &icons()).unwrap()[0].weather_code, "sun");
    days[5].weather_code = 77;
    assert_eq!(daily_outlook(&days, &icons()), Err(ForecastError::UnknownConditionCode));
}

#[test]
fn current_conditions_take_today_and_the_current_hour() {
    let hours = vec![hour(0, 10.9, 0, 1), hour(3_600, 11.9, 0, 1), hour(4_000, 12.9, 0, 1)];
    let days = vec![day(0, 20.9, -3.9, 0), day(86_400, 99.0, 98.0, 0)];
    assert_eq!(
        current_conditions(&at(3_600 + 7 * 60 + 5), &hours, &days),
        Ok(CurrentForecast { time: "1:07 AM".to_string(), temp_max: 20, temp_min: -3, temp: 11 })
    );
    assert_eq!(
        current_conditions(&at(7_200), &hours, &days),
        Err(ForecastError::MissingCurrentHour)
    );
    assert_eq!(
        current_conditions(&at(0), &hours, &vec![]),
        Err(ForecastError::EmptyDailySeries)
    );
    assert_eq!(
        current_conditions(&at(7_200), &hours, &vec![]),
        Err(ForecastError::EmptyDailySeries)
    );
}
