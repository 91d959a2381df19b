use pcf8563::DateTime;
use sd_logger::clock::{pcf8563_date_time_to_timestamp, ClockData};
use sd_logger::text::{
    render_date, weekday_name, write_date_time, write_decimal, write_file_line, write_file_name,
};

fn reading(year: u8, month: u8, day: u8, hours: u8, minutes: u8, seconds: u8) -> DateTime {
    DateTime {
        year,
        month,
        weekday: 1,
        day,
        hours,
        minutes,
        seconds,
    }
}

fn clock_at(time: DateTime) -> ClockData {
    let mut clock = ClockData::default();
    clock.set_from_pcf8563(time);
    clock
}

fn text(bytes: Vec<u8>) -> String {
    String::from_utf8(bytes).expect("ASCII text")
}

#[test]
fn reading_converts_to_timestamp() {
    let t = pcf8563_date_time_to_timestamp(reading(24, 1, 1, 12, 0, 5));
    assert_eq!(t.year_since_1970, 54);
    assert_eq!(t.zero_indexed_month, 0);
    assert_eq!(t.zero_indexed_day, 0);
    assert_eq!((t.hours, t.minutes, t.seconds), (12, 0, 5));

    let t = pcf8563_date_time_to_timestamp(reading(99, 12, 31, 23, 59, 59));
    assert_eq!(t.year_since_1970, 129);
    assert_eq!(t.zero_indexed_month, 11);
    assert_eq!(t.zero_indexed_day, 30);
}

#[test]
fn default_clock_is_start_of_1970() {
    let clock = ClockData::default();
    assert_eq!(clock.year(), 1970);
    assert_eq!(clock.month(), 1);
    assert_eq!(clock.day(), 1);
    assert_eq!(clock.week_day(), 0);
    assert_eq!((clock.hours(), clock.minutes(), clock.seconds()), (0, 0, 0));
    let t = clock.get_timestamp();
    assert_eq!(t.year_since_1970, 0);
    assert_eq!((t.zero_indexed_month, t.zero_indexed_day), (0, 0));
}

#[test]
fn clock_takes_reading_and_resets() {
    let mut clock = clock_at(DateTime {
        year: 22,
        month: 11,
        weekday: 5,
        day: 18,
        hours: 11,
        minutes: 28,
        seconds: 7,
    });
    assert_eq!(clock.year(), 2022);
    assert_eq!(clock.month(), 11);
    assert_eq!(clock.day(), 18);
    assert_eq!(clock.week_day(), 5);
    assert_eq!((clock.hours(), clock.minutes(), clock.seconds()), (11, 28, 7));
    assert_eq!(clock.get_timestamp().year_since_1970, 52);

    clock.reset_to_default();
    assert_eq!(clock.year(), 1970);
    assert_eq!(clock.month(), 1);
    assert_eq!(clock.day(), 1);
    assert_eq!(clock.week_day(), 0);
}

#[test]
fn file_name_is_date_with_log_extension() {
    let mut out = Vec::new();
    write_file_name(&mut out, &clock_at(reading(24, 1, 1, 12, 0, 0)));
    assert_eq!(text(out), "20240101.log");

    let mut out = Vec::new();
    write_file_name(&mut out, &clock_at(reading(23, 12, 31, 0, 0, 0)));
    assert_eq!(text(out), "20231231.log");

    let mut out = Vec::new();
    write_file_name(&mut out, &ClockData::default());
    assert_eq!(text(out), "19700101.log");
}

#[test]
fn file_line_has_date_time_and_counter() {
    let mut out = Vec::new();
    write_file_line(&mut out, &clock_at(reading(24, 1, 1, 12, 0, 5)), 7);
    assert_eq!(text(out), "2024-1-1 12:00:05 7\n");

    let mut out = b"prefix ".to_vec();
    write_file_line(&mut out, &clock_at(reading(23, 11, 18, 9, 28, 45)), 1234);
    assert_eq!(text(out), "prefix 2023-11-18 9:28:45 1234\n");
}

#[test]
fn status_date_time_is_day_first() {
    let mut out = Vec::new();
    write_date_time(&mut out, &clock_at(reading(24, 3, 9, 7, 5, 0)));
    assert_eq!(text(out), "9.3.2024 7:05:00");
}

#[test]
fn rtc_reading_renders_on_three_lines() {
    let mut out = Vec::new();
    render_date(
        &mut out,
        DateTime {
            year: 22,
            month: 11,
            weekday: 5,
            day: 18,
            hours: 11,
            minutes: 28,
            seconds: 0,
        },
    );
    assert_eq!(text(out), "18.11.2022\n11:28:00\nFriday");

    let mut out = Vec::new();
    let early = DateTime {
        year: 5,
        month: 2,
        weekday: 0,
        day: 3,
        hours: 4,
        minutes: 6,
        seconds: 9,
    };
    render_date(&mut out, early);
    assert_eq!(text(out), "03.02.2005\n04:06:09\nSunday");
}

#[test]
fn weekdays_are_named_from_sunday() {
    let names: Vec<&str> = (0..7).map(weekday_name).collect();
    assert_eq!(
        names,
        ["Sunday", "Monday", "Tuesday", "Wednesday", "Thursday", "Friday", "Saturday"]
    );
}

#[test]
fn decimals_have_no_leading_zeros() {
    let cases = [
        (0u64, "0"),
        (7, "7"),
        (10, "10"),
        (2024, "2024"),
        (u64::MAX, "18446744073709551615"),
    ];
    for (n, s) in cases {
        let mut out = Vec::new();
        write_decimal(&mut out, n);
        assert_eq!(text(out), s);
    }
}
