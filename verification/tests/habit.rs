use habit::habit::{At, BuildAtError, Day, Habit, ParseAtError, ParseDayError};

#[test]
fn times_of_day_are_built_in_range() {
    assert_eq!(At::build(0, 0), Ok(At { hour: 0, minutes: 0 }));
    assert_eq!(At::build(23, 59), Ok(At { hour: 23, minutes: 59 }));
    assert_eq!(At::build(24, 0), Err(BuildAtError::HourOutOfRange));
    assert_eq!(At::build(24, 60), Err(BuildAtError::HourOutOfRange));
    assert_eq!(At::build(23, 60), Err(BuildAtError::MinutesOutOfRange));
    assert_eq!(At::build(255, 255), Err(BuildAtError::HourOutOfRange));
}

#[test]
fn times_of_day_are_read_from_text() {
    assert_eq!(At::from_str("07:30"), Ok(At { hour: 7, minutes: 30 }));
    assert_eq!(At::from_str("23:59"), Ok(At { hour: 23, minutes: 59 }));
    assert_eq!(At::from_str("00:00"), Ok(At { hour: 0, minutes: 0 }));
    assert_eq!(At::from_str("24:00"), Err(ParseAtError::HourOutOfRange));
    assert_eq!(At::from_str("99:99"), Err(ParseAtError::HourOutOfRange));
    assert_eq!(At::from_str("12:60"), Err(ParseAtError::MinutesOutOfRange));
    assert_eq!(At::from_str(""), Err(ParseAtError::WrongFormat));
    assert_eq!(At::from_str("7:30"), Err(ParseAtError::WrongFormat));
    assert_eq!(At::from_str("0730"), Err(ParseAtError::WrongFormat));
    assert_eq!(At::from_str("07-30"), Err(ParseAtError::WrongFormat));
    assert_eq!(At::from_str("ab:cd"), Err(ParseAtError::WrongFormat));
    assert_eq!(At::from_str("12:3"), Err(ParseAtError::WrongFormat));
}

#[test]
fn the_first_time_in_a_text_counts() {
    assert_eq!(At::from_str("at 07:30 sharp"), Ok(At { hour: 7, minutes: 30 }));
    assert_eq!(At::from_str("112:345"), Ok(At { hour: 12, minutes: 34 }));
    assert_eq!(At::from_str("1:23 12:34"), Ok(At { hour: 12, minutes: 34 }));
    assert_eq!(At::from_str("99:00 12:34"), Err(ParseAtError::HourOutOfRange));
    assert_eq!(At::from_str("12:34 99:00"), Ok(At { hour: 12, minutes: 34 }));
    assert_eq!(At::from_str("é 08:05"), Ok(At { hour: 8, minutes: 5 }));
    assert_eq!(At::from_str("12:34:56"), Ok(At { hour: 12, minutes: 34 }));
}

#[test]
fn times_of_day_are_written_with_two_digits() {
    assert_eq!(At { hour: 7, minutes: 5 }.to_string(), "07:05");
    assert_eq!(At { hour: 0, minutes: 0 }.to_string(), "00:00");
    assert_eq!(At { hour: 23, minutes: 59 }.to_string(), "23:59");
    assert_eq!(At { hour: 10, minutes: 9 }.to_string(), "10:09");
    for hour in 0..24u8 {
        for minutes in 0..60u8 {
            let at = At::build(hour, minutes).unwrap();
            assert_eq!(At::from_str(&at.to_string()), Ok(at));
            assert_eq!(at.to_string(), format!("{:02}:{:02}", hour, minutes));
        }
    }
}

#[test]
fn errors_say_what_went_wrong() {
    assert_eq!(BuildAtError::HourOutOfRange.to_string(), "Hour out of range. Must be in [[0, 23]].");
    assert_eq!(
        BuildAtError::MinutesOutOfRange.to_string(),
        "Minutes out of range. Must be in [[0, 59]]."
    );
    assert_eq!(ParseAtError::WrongFormat.to_string(), "Wrong format. Should match 'hh:mm'.");
    assert_eq!(ParseAtError::HourOutOfRange.to_string(), "Hour out of range. Must be in [[0, 23]].");
    assert_eq!(
        ParseAtError::MinutesOutOfRange.to_string(),
        "Minutes out of range. Must be in [[0, 59]]."
    );
}

#[test]
fn days_have_names() {
    let days = [
        (Day::Monday, "Monday"),
        (Day::Tuesday, "Tuesday"),
        (Day::Wednesday, "Wednesday"),
        (Day::Thursday, "Thursday"),
        (Day::Friday, "Friday"),
        (Day::Saturday, "Saturday"),
        (Day::Sunday, "Sunday"),
    ];
    for (index, (day, name)) in days.iter().enumerate() {
        assert_eq!(day.to_string(), *name);
        assert_eq!(Day::from_str(name), Ok(*day));
        assert_eq!(day.position() as usize, index);
        assert_eq!(Day::from_position(index as u8), Some(*day));
    }
    assert_eq!(Day::from_position(7), None);
    assert_eq!(Day::from_position(255), None);
    assert_eq!(Day::from_str("monday"), Err(ParseDayError));
    assert_eq!(Day::from_str("Monday "), Err(ParseDayError));
    assert_eq!(Day::from_str(""), Err(ParseDayError));
    assert_eq!(Day::from_str("Mon"), Err(ParseDayError));
    assert!(Day::Monday < Day::Tuesday && Day::Saturday < Day::Sunday);
}

#[test]
fn a_habit_holds_its_fields() {
    let habit = Habit::new(
        "read".to_string(),
        "ten pages".to_string(),
        vec![Day::Monday, Day::Sunday],
        At { hour: 21, minutes: 0 },
    );
    assert_eq!(habit.name, "read");
    assert_eq!(habit.description, "ten pages");
    assert_eq!(habit.days, vec![Day::Monday, Day::Sunday]);
    assert_eq!(habit.at, At { hour: 21, minutes: 0 });
    let copy = habit.copy();
    assert_eq!(copy.name, habit.name);
    assert_eq!(copy.description, habit.description);
    assert_eq!(copy.days, habit.days);
    assert_eq!(copy.at, habit.at);
}
