//! A habit: its name, its description, the weekdays it is due on and the time
//! of day it is due at.

use crate::utils::{decimal, decimal_digits, left_pad, repeated, same_text};
use vstd::prelude::*;
use vstd::string::{StrSliceExecFns, StringExecFns};

verus! {

/// A day of the week. Weeks start on Monday.
#[derive(Debug, Clone, Copy, PartialEq, Eq, PartialOrd, Ord, Hash, Structural)]
pub enum Day {
    Monday,
    Tuesday,
    Wednesday,
    Thursday,
    Friday,
    Saturday,
    Sunday,
}

impl Day {
    /// The position of the day in the week: Monday is 0, Sunday is 6.
    pub open spec fn index(self) -> int {
        match self {
            Day::Monday => 0,
            Day::Tuesday => 1,
            Day::Wednesday => 2,
            Day::Thursday => 3,
            Day::Friday => 4,
            Day::Saturday => 5,
            Day::Sunday => 6,
        }
    }

    /// The day at position `index` of the week, Sunday for 6 and beyond.
    pub open spec fn at(index: int) -> Day {
        if index == 0 {
            Day::Monday
        } else if index == 1 {
            Day::Tuesday
        } else if index == 2 {
            Day::Wednesday
        } else if index == 3 {
            Day::Thursday
        } else if index == 4 {
            Day::Friday
        } else if index == 5 {
            Day::Saturday
        } else {
            Day::Sunday
        }
    }

    /// The English name of the day.
    pub open spec fn name(self) -> Seq<char> {
        match self {
            Day::Monday => "Monday"@,
            Day::Tuesday => "Tuesday"@,
            Day::Wednesday => "Wednesday"@,
            Day::Thursday => "Thursday"@,
            Day::Friday => "Friday"@,
            Day::Saturday => "Saturday"@,
            Day::Sunday => "Sunday"@,
        }
    }

    /// The English name of the day.
    pub fn to_string(&self) -> (text: String)
        ensures
            text@ == self.name(),
    {
        match self {
            Day::Monday => String::from_str("Monday"),
            Day::Tuesday => String::from_str("Tuesday"),
            Day::Wednesday => String::from_str("Wednesday"),
            Day::Thursday => String::from_str("Thursday"),
            Day::Friday => String::from_str("Friday"),
            Day::Saturday => String::from_str("Saturday"),
            Day::Sunday => String::from_str("Sunday"),
        }
    }

    /// The day whose English name is `s`, letter for letter. A text that is
    /// the name of a day gives that day, and any other text gives none.
    pub fn from_str(s: &str) -> (result: Result<Day, ParseDayError>)
        ensures
            forall|day: Day| #[trigger] day.name() == s@ <==> result == Ok::<Day, ParseDayError>(day),
            result is Err <==> forall|day: Day| #[trigger] day.name() != s@,
    {
        let result = if same_text(s, "Monday") {
            Ok(Day::Monday)
        } else if same_text(s, "Tuesday") {
            Ok(Day::Tuesday)
        } else if same_text(s, "Wednesday") {
            Ok(Day::Wednesday)
        } else if same_text(s, "Thursday") {
            Ok(Day::Thursday)
        } else if same_text(s, "Friday") {
            Ok(Day::Friday)
        } else if same_text(s, "Saturday") {
            Ok(Day::Saturday)
        } else if same_text(s, "Sunday") {
            Ok(Day::Sunday)
        } else {
            Err(ParseDayError)
        };
        proof {
            assert forall|day: Day| #[trigger] day.name() == s@ <==> result == Ok::<
                Day,
                ParseDayError,
            >(day) by {
                if let Ok(found) = result {
                    lemma_day_names_differ(day, found);
                }
            }
            if let Ok(found) = result {
                assert(found.name() == s@);
            }
        }
        result
    }

    /// The position of the day in the week, from 0 for Monday to 6 for Sunday.
    pub fn position(self) -> (index: u8)
        ensures
            index == self.index(),
            index < 7,
            Day::at(index as int) == self,
    {
        match self {
            Day::Monday => 0,
            Day::Tuesday => 1,
            Day::Wednesday => 2,
            Day::Thursday => 3,
            Day::Friday => 4,
            Day::Saturday => 5,
            Day::Sunday => 6,
        }
    }

    /// The day at a position of the week, or `None` where the position is
    /// not below 7.
    pub fn from_position(index: u8) -> (day: Option<Day>)
        ensures
            index < 7 ==> day == Some(Day::at(index as int)),
            index >= 7 ==> day.is_none(),
            day matches Some(day) ==> day.index() == index,
    {
        match index {
            0 => Some(Day::Monday),
            1 => Some(Day::Tuesday),
            2 => Some(Day::Wednesday),
            3 => Some(Day::Thursday),
            4 => Some(Day::Friday),
            5 => Some(Day::Saturday),
            6 => Some(Day::Sunday),
            _ => None,
        }
    }
}

/// A text is the name of no day.
#[derive(Debug, Clone, Copy, PartialEq, Eq, Structural)]
pub struct ParseDayError;

/// No two days have the same name.
pub proof fn lemma_day_names_differ(a: Day, b: Day)
    ensures
        a.name() == b.name() ==> a == b,
{
    reveal_strlit("Monday");
    reveal_strlit("Tuesday");
    reveal_strlit("Wednesday");
    reveal_strlit("Thursday");
    reveal_strlit("Friday");
    reveal_strlit("Saturday");
    reveal_strlit("Sunday");
    if a != b && a.name() == b.name() {
        assert(a.name().len() == b.name().len());
        assert(a.name()[0] == b.name()[0]);
        assert(a.name()[1] == b.name()[1]);
    }
}

/// A time of day, to the minute.
#[derive(Debug, Clone, Copy, PartialEq, Eq, Structural)]
pub struct At {
    pub hour: u8,
    pub minutes: u8,
}

/// Why an hour and minutes make no time of day.
#[derive(Debug, Clone, Copy, PartialEq, Eq, Structural)]
pub enum BuildAtError {
    HourOutOfRange,
    MinutesOutOfRange,
}

/// Why a text gives no time of day.
#[derive(Debug, Clone, Copy, PartialEq, Eq, Structural)]
pub enum ParseAtError {
    WrongFormat,
    HourOutOfRange,
    MinutesOutOfRange,
}

/// Whether `c` is one of the digits `0` to `9`.
pub open spec fn is_digit(c: char) -> bool {
    48 <= c as u32 <= 57
}

/// The number that the two digits `tens` and `ones` write.
pub open spec fn two_digits(tens: char, ones: char) -> int {
    10 * (tens as u32 - 48) + (ones as u32 - 48)
}

/// Whether two digits, a colon and two digits stand in `s` from place `i` on.
pub open spec fn is_time_at(s: Seq<char>, i: int) -> bool {
    &&& 0 <= i
    &&& i + 5 <= s.len()
    &&& is_digit(s[i])
    &&& is_digit(s[i + 1])
    &&& s[i + 2] == ':'
    &&& is_digit(s[i + 3])
    &&& is_digit(s[i + 4])
}

/// Whether `i` is the first place of `s` from which a time stands.
pub open spec fn is_first_time_at(s: Seq<char>, i: int) -> bool {
    is_time_at(s, i) && forall|j: int| 0 <= j < i ==> !is_time_at(s, j)
}

/// The time of day that stands in `s` from place `i` on, where the hour and
/// the minutes are in range.
pub open spec fn time_at(s: Seq<char>, i: int) -> Result<At, ParseAtError> {
    let hour = two_digits(s[i], s[i + 1]);
    let minutes = two_digits(s[i + 3], s[i + 4]);
    if hour > 23 {
        Err(ParseAtError::HourOutOfRange)
    } else if minutes > 59 {
        Err(ParseAtError::MinutesOutOfRange)
    } else {
        Ok(At { hour: hour as u8, minutes: minutes as u8 })
    }
}

/// Whether `c` is one of the digits `0` to `9`.
fn digit_of(c: char) -> (value: Option<u8>)
    ensures
        is_digit(c) ==> value == Some((c as u32 - 48) as u8),
        !is_digit(c) ==> value.is_none(),
{
    let code: u32 = c as u32;
    if 48 <= code && code <= 57 {
        Some((code - 48) as u8)
    } else {
        None
    }
}

impl At {
    /// The time as `hh:mm`, each part with two digits.
    pub open spec fn text(self) -> Seq<char> {
        padded_two(self.hour as nat) + ":"@ + padded_two(self.minutes as nat)
    }

    /// The time as `hh:mm`, each part with two digits.
    pub fn to_string(&self) -> (text: String)
        ensures
            text@ == self.text(),
    {
        let hour = decimal(self.hour as u64);
        let minutes = decimal(self.minutes as u64);
        let hour = hour.as_str();
        let minutes = minutes.as_str();
        proof {
            lemma_decimal_is_ascii(self.hour as nat);
            lemma_decimal_is_ascii(self.minutes as nat);
            vstd::string::is_ascii_spec_bytes(hour);
            vstd::string::is_ascii_spec_bytes(minutes);
            assert(hour.len() == hour@.len());
            assert(minutes.len() == minutes@.len());
        }
        let mut text = left_pad(hour, '0', 2);
        text.append(":");
        let minutes = left_pad(minutes, '0', 2);
        text.append(minutes.as_str());
        text
    }

    /// The time of day that `s` holds: the first two digits, colon and two
    /// digits that stand together in it, whatever stands around them. A text
    /// without such a place is of the wrong format; an hour above 23 is
    /// refused, then minutes above 59.
    pub fn from_str(s: &str) -> (result: Result<At, ParseAtError>)
        ensures
            (forall|i: int| !is_time_at(s@, i)) ==> result == Err::<At, ParseAtError>(
                ParseAtError::WrongFormat,
            ),
            forall|i: int| is_first_time_at(s@, i) ==> result == time_at(s@, i),
            result matches Ok(at) ==> at.valid(),
    {
        let length = s.unicode_len();
        let mut i: usize = 0;
        while i < length && length - i >= 5
            invariant
                i <= length,
                length == s@.len(),
                forall|j: int| 0 <= j < i ==> !is_time_at(s@, j),
            decreases length - i,
        {
            let found = Self::time_from(s, length, i);
            match found {
                Some(result) => {
                    assert(is_first_time_at(s@, i as int));
                    assert forall|k: int| is_first_time_at(s@, k) implies result == time_at(
                        s@,
                        k,
                    ) by {
                        if k < i {
                        } else if k > i {
                            assert(!is_time_at(s@, i as int));
                        }
                    }
                    return result;
                },
                None => {},
            }
            i += 1;
        }
        Err(ParseAtError::WrongFormat)
    }

    /// The time of day that stands in `s` from place `i` on, if one does.
    fn time_from(s: &str, length: usize, i: usize) -> (found: Option<Result<At, ParseAtError>>)
        requires
            length == s@.len(),
            i + 5 <= length,
        ensures
            is_time_at(s@, i as int) ==> found == Some(time_at(s@, i as int)),
            !is_time_at(s@, i as int) ==> found.is_none(),
            found matches Some(Ok(at)) ==> at.valid(),
    {
        let h1 = digit_of(s.get_char(i));
        let h2 = digit_of(s.get_char(i + 1));
        let colon = s.get_char(i + 2);
        let m1 = digit_of(s.get_char(i + 3));
        let m2 = digit_of(s.get_char(i + 4));
        match (h1, h2, m1, m2) {
            (Some(h1), Some(h2), Some(m1), Some(m2)) => {
                if colon != ':' {
                    return None;
                }
                let hour: u8 = 10 * h1 + h2;
                let minutes: u8 = 10 * m1 + m2;
                match At::build(hour, minutes) {
                    Ok(at) => Some(Ok(at)),
                    Err(BuildAtError::HourOutOfRange) => Some(Err(ParseAtError::HourOutOfRange)),
                    Err(BuildAtError::MinutesOutOfRange) => Some(
                        Err(ParseAtError::MinutesOutOfRange),
                    ),
                }
            },
            _ => None,
        }
    }

    /// Whether the hour is below 24 and the minutes are below 60.
    pub open spec fn valid(self) -> bool {
        self.hour <= 23 && self.minutes <= 59
    }

    /// What `build` returns for an hour and minutes.
    pub open spec fn build_spec(hour: u8, minutes: u8) -> Result<At, BuildAtError> {
        if hour > 23 {
            Err(BuildAtError::HourOutOfRange)
        } else if minutes > 59 {
            Err(BuildAtError::MinutesOutOfRange)
        } else {
            Ok(At { hour, minutes })
        }
    }

    /// The time of day with the given hour and minutes. An hour above 23 is
    /// refused first, then minutes above 59.
    pub fn build(hour: u8, minutes: u8) -> (result: Result<At, BuildAtError>)
        ensures
            result == At::build_spec(hour, minutes),
            result matches Ok(at) ==> at.valid(),
    {
        if hour > 23 {
            Err(BuildAtError::HourOutOfRange)
        } else if minutes > 59 {
            Err(BuildAtError::MinutesOutOfRange)
        } else {
            Ok(At { hour, minutes })
        }
    }
}

/// The decimal digits of `n`, with a zero before a single one.
pub open spec fn padded_two(n: nat) -> Seq<char> {
    if n < 10 {
        repeated('0', 1) + decimal_digits(n)
    } else {
        decimal_digits(n)
    }
}

/// The decimal digits of a number are as many ASCII characters as the
/// number has digits: one below 10, two from there below 100.
pub proof fn lemma_decimal_is_ascii(n: nat)
    ensures
        vstd::utf8::is_ascii_chars(decimal_digits(n)),
        n < 10 ==> decimal_digits(n).len() == 1,
        10 <= n < 100 ==> decimal_digits(n).len() == 2,
        n >= 100 ==> decimal_digits(n).len() >= 3,
        decimal_digits(n).len() <= n + 1,
    decreases n,
{
    if n >= 10 {
        lemma_decimal_is_ascii(n / 10);
    }
}

impl BuildAtError {
    /// What went wrong, in words.
    pub fn to_string(&self) -> (text: String)
        ensures
            text@ == match *self {
                BuildAtError::HourOutOfRange => "Hour out of range. Must be in [[0, 23]]."@,
                BuildAtError::MinutesOutOfRange => "Minutes out of range. Must be in [[0, 59]]."@,
            },
    {
        match self {
            BuildAtError::HourOutOfRange => String::from_str(
                "Hour out of range. Must be in [[0, 23]].",
            ),
            BuildAtError::MinutesOutOfRange => String::from_str(
                "Minutes out of range. Must be in [[0, 59]].",
            ),
        }
    }
}

impl ParseAtError {
    /// What went wrong, in words.
    pub fn to_string(&self) -> (text: String)
        ensures
            text@ == match *self {
                ParseAtError::WrongFormat => "Wrong format. Should match 'hh:mm'."@,
                ParseAtError::HourOutOfRange => "Hour out of range. Must be in [[0, 23]]."@,
                ParseAtError::MinutesOutOfRange => "Minutes out of range. Must be in [[0, 59]]."@,
            },
    {
        match self {
            ParseAtError::WrongFormat => String::from_str("Wrong format. Should match 'hh:mm'."),
            ParseAtError::HourOutOfRange => String::from_str(
                "Hour out of range. Must be in [[0, 23]].",
            ),
            ParseAtError::MinutesOutOfRange => String::from_str(
                "Minutes out of range. Must be in [[0, 59]].",
            ),
        }
    }
}

/// The days of `days`, in a vector of their own.
pub fn copy_days(days: &Vec<Day>) -> (copy: Vec<Day>)
    ensures
        copy@ == days@,
{
    let mut copy: Vec<Day> = Vec::new();
    let mut i: usize = 0;
    while i < days.len()
        invariant
            i <= days@.len(),
            copy@ == days@.take(i as int),
        decreases days@.len() - i,
    {
        copy.push(days[i]);
        assert(copy@ =~= days@.take(i + 1));
        i += 1;
    }
    assert(days@.take(days@.len() as int) =~= days@);
    copy
}

/// A tracked habit.
#[derive(Debug, Clone, PartialEq, Eq)]
pub struct Habit {
    pub name: String,
    pub description: String,
    pub days: Vec<Day>,
    pub at: At,
}

impl Habit {
    /// A habit with the given fields.
    pub fn new(name: String, description: String, days: Vec<Day>, at: At) -> (habit: Habit)
        ensures
            habit.name == name,
            habit.description == description,
            habit.days == days,
            habit.at == at,
    {
        Habit { name, description, days, at }
    }

    /// Whether `other` holds what the habit holds.
    pub open spec fn same_as(self, other: Habit) -> bool {
        &&& self.name == other.name
        &&& self.description == other.description
        &&& self.days@ == other.days@
        &&& self.at == other.at
    }

    /// A habit that holds what this one holds.
    pub fn copy(&self) -> (habit: Habit)
        ensures
            self.same_as(habit),
    {
        Habit {
            name: self.name.clone(),
            description: self.description.clone(),
            days: copy_days(&self.days),
            at: self.at,
        }
    }

    /// Whether the habit is due on `day`.
    pub open spec fn scheduled_on(self, day: Day) -> bool {
        self.days@.contains(day)
    }
}

} // verus!
