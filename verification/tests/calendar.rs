use habit::calendar::{leap_year, today, weekday, Date, MAX_YEAR, MIN_YEAR};
use habit::habit::Day;
use habit::utils::nth_day_of_year;

fn date(year: i32, month: u8, day: u8) -> Date {
    Date::new(year, month, day).expect("a date of the calendar")
}

fn is_leap(year: i64) -> bool {
    year.rem_euclid(4) == 0 && (year.rem_euclid(100) != 0 || year.rem_euclid(400) == 0)
}

fn days_before_year(year: i64) -> i64 {
    let y = year - 1;
    365 * y + y.div_euclid(4) - y.div_euclid(100) + y.div_euclid(400)
}

const MONTHS: [i64; 12] = [31, 28, 31, 30, 31, 30, 31, 31, 30, 31, 30, 31];

fn ordinal(year: i64, month: usize, day: i64) -> i64 {
    let mut before: i64 = MONTHS[..month - 1].iter().sum();
    if month > 2 && is_leap(year) {
        before += 1;
    }
    before + day
}

#[test]
fn dates_that_exist() {
    assert_eq!(Date::new(2024, 2, 29), Some(Date { year: 2024, month: 2, day: 29 }));
    assert_eq!(Date::new(2023, 2, 29), None);
    assert_eq!(Date::new(1900, 2, 29), None);
    assert_eq!(Date::new(2000, 2, 29), Some(Date { year: 2000, month: 2, day: 29 }));
    assert_eq!(Date::new(2024, 4, 31), None);
    assert_eq!(Date::new(2024, 0, 1), None);
    assert_eq!(Date::new(2024, 13, 1), None);
    assert_eq!(Date::new(2024, 1, 0), None);
    assert_eq!(Date::new(2024, 1, 32), None);
    assert!(Date::new(MAX_YEAR, 12, 31).is_some());
    assert!(Date::new(MIN_YEAR, 1, 1).is_some());
    assert_eq!(Date::new(MAX_YEAR + 1, 1, 1), None);
    assert_eq!(Date::new(MIN_YEAR - 1, 12, 31), None);
    assert!(date(2024, 2, 29).is_valid());
    assert!(!(Date { year: 2023, month: 2, day: 29 }).is_valid());
}

#[test]
fn leap_years() {
    assert!(leap_year(2024));
    assert!(!leap_year(2023));
    assert!(!leap_year(1900));
    assert!(leap_year(2000));
    assert!(leap_year(0));
    assert!(leap_year(-4));
    assert!(!leap_year(-1));
    assert!(!leap_year(-100));
    assert!(leap_year(-400));
}

#[test]
fn weekdays_of_known_dates() {
    assert_eq!(weekday(&date(2024, 1, 1)), Day::Monday);
    assert_eq!(weekday(&date(2024, 3, 3)), Day::Sunday);
    assert_eq!(weekday(&date(2024, 12, 31)), Day::Tuesday);
    assert_eq!(weekday(&date(2023, 1, 1)), Day::Sunday);
    assert_eq!(weekday(&date(2012, 1, 1)), Day::Sunday);
    assert_eq!(weekday(&date(2012, 12, 31)), Day::Monday);
    assert_eq!(weekday(&date(2000, 2, 29)), Day::Tuesday);
    assert_eq!(weekday(&date(1970, 1, 1)), Day::Thursday);
    assert_eq!(weekday(&date(1, 1, 1)), Day::Monday);
    assert_eq!(weekday(&date(2015, 9, 8)), Day::Tuesday);
    assert_eq!(weekday(&date(-308, 3, 14)), Day::Friday);
}

#[test]
fn weekdays_follow_the_day_count() {
    let mut years: Vec<i32> = (-1300..=2500).collect();
    years.extend([MIN_YEAR, MIN_YEAR + 1, -100000, 100000, MAX_YEAR - 1, MAX_YEAR]);
    for year in years {
        for (month, day) in [(1u8, 1u8), (2, 28), (3, 1), (7, 4), (12, 31)] {
            let d = date(year, month, day);
            let count = days_before_year(year as i64) + ordinal(year as i64, month as usize, day as i64) - 1;
            let expected = Day::from_position(count.rem_euclid(7) as u8).unwrap();
            assert_eq!(weekday(&d), expected, "{}-{}-{}", year, month, day);
        }
    }
}

#[test]
fn days_of_the_year() {
    assert_eq!(nth_day_of_year(&date(2024, 1, 1)), 1);
    assert_eq!(nth_day_of_year(&date(2024, 1, 8)), 8);
    assert_eq!(nth_day_of_year(&date(2024, 3, 3)), 63);
    assert_eq!(nth_day_of_year(&date(2023, 3, 3)), 62);
    assert_eq!(nth_day_of_year(&date(2024, 12, 31)), 366);
    assert_eq!(nth_day_of_year(&date(2023, 12, 31)), 365);
    assert_eq!(nth_day_of_year(&date(2015, 9, 8)), 251);
    assert_eq!(nth_day_of_year(&date(-308, 3, 14)), 74);
}

#[test]
fn days_of_the_year_follow_the_months() {
    for year in [-401, -400, -4, -1, 0, 1, 1900, 2000, 2023, 2024, MIN_YEAR, MAX_YEAR] {
        for month in 1..=12u8 {
            let mut length = MONTHS[month as usize - 1];
            if month == 2 && is_leap(year as i64) {
                length += 1;
            }
            for day in 1..=length {
                let d = date(year, month, day as u8);
                assert_eq!(
                    nth_day_of_year(&d) as i64,
                    ordinal(year as i64, month as usize, day),
                    "{}-{}-{}",
                    year,
                    month,
                    day
                );
            }
            assert_eq!(Date::new(year, month, length as u8 + 1), None);
        }
    }
}

#[test]
fn today_is_a_date() {
    let now = today();
    assert!(now.is_valid());
    assert!(now.year >= 2024);
}
