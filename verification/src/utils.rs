//! Small helpers on dates and text.

use crate::calendar::{days_since_new_year, lemma_ordinal_bounds, Date};
use crate::habit::Day;
use colored::Colorize;
use vstd::prelude::*;
use vstd::string::{StrSliceExecFns, StringExecFns};

verus! {

/// The day of the year of a date: 1 for the first of January, 365 or 366 for
/// the 31st of December.
pub fn nth_day_of_year(date: &Date) -> (n: u16)
    requires
        date.valid(),
    ensures
        n == date.ordinal(),
{
    proof {
        lemma_ordinal_bounds(*date);
    }
    let days = days_since_new_year(date);
    (days + 1) as u16
}

/// Appends a character to a text, by `String::push`. Trusted: the text is
/// then what it was, with the character after it.
#[verifier::external_body]
pub(crate) fn push_char(text: &mut String, c: char)
    ensures
        final(text)@ == old(text)@.push(c),
{
    text.push(c)
}

/// Whether two texts hold the same characters.
pub fn same_text(a: &str, b: &str) -> (same: bool)
    ensures
        same == (a@ == b@),
{
    let length = a.unicode_len();
    if length != b.unicode_len() {
        return false;
    }
    let mut i: usize = 0;
    while i < length
        invariant
            i <= length,
            length == a@.len(),
            length == b@.len(),
            forall|k: int| 0 <= k < i ==> a@[k] == b@[k],
        decreases length - i,
    {
        if a.get_char(i) != b.get_char(i) {
            return false;
        }
        i += 1;
    }
    assert(a@ =~= b@);
    true
}

/// The character of a decimal digit.
pub open spec fn digit_char(digit: int) -> char {
    if digit == 0 {
        '0'
    } else if digit == 1 {
        '1'
    } else if digit == 2 {
        '2'
    } else if digit == 3 {
        '3'
    } else if digit == 4 {
        '4'
    } else if digit == 5 {
        '5'
    } else if digit == 6 {
        '6'
    } else if digit == 7 {
        '7'
    } else if digit == 8 {
        '8'
    } else {
        '9'
    }
}

/// The decimal digits of a number, without leading zeros.
pub open spec fn decimal_digits(n: nat) -> Seq<char>
    decreases n,
{
    if n < 10 {
        seq![digit_char(n as int)]
    } else {
        decimal_digits(n / 10).push(digit_char((n % 10) as int))
    }
}

/// The character of a decimal digit.
fn digit(d: u64) -> (c: char)
    requires
        d < 10,
    ensures
        c == digit_char(d as int),
{
    match d {
        0 => '0',
        1 => '1',
        2 => '2',
        3 => '3',
        4 => '4',
        5 => '5',
        6 => '6',
        7 => '7',
        8 => '8',
        _ => '9',
    }
}

/// Appends the decimal digits of `n` to `text`.
fn push_decimal(text: &mut String, n: u64)
    ensures
        final(text)@ == old(text)@ + decimal_digits(n as nat),
    decreases n,
{
    if n >= 10 {
        push_decimal(text, n / 10);
    }
    push_char(text, digit(n % 10));
    assert(final(text)@ =~= old(text)@ + decimal_digits(n as nat));
}

/// The number in decimal digits.
pub fn decimal(n: u64) -> (text: String)
    ensures
        text@ == decimal_digits(n as nat),
{
    let mut text = String::new();
    push_decimal(&mut text, n);
    assert(Seq::<char>::empty() + decimal_digits(n as nat) =~= decimal_digits(n as nat));
    text
}

/// `count` times the character `c`.
pub open spec fn repeated(c: char, count: nat) -> Seq<char> {
    Seq::new(count, |i: int| c)
}

/// The text `s`, with as many `c` before it as its length in bytes is short
/// of `n`.
pub fn left_pad(s: &str, c: char, n: usize) -> (padded: String)
    ensures
        n <= s.len() ==> padded@ == s@,
        n > s.len() ==> padded@ == repeated(c, (n - s.len()) as nat) + s@,
{
    if n <= s.len() {
        return String::from_str(s);
    }
    let mut new_s = String::new();
    let n_it = n - s.len();
    let mut i: usize = 0;
    while i < n_it
        invariant
            i <= n_it,
            new_s@ == repeated(c, i as nat),
        decreases n_it - i,
    {
        push_char(&mut new_s, c);
        assert(new_s@ =~= repeated(c, (i + 1) as nat));
        i += 1;
    }
    new_s.append(s);
    new_s
}

/// The names of `days`, each followed by a comma and a blank.
pub open spec fn listed(days: Seq<Day>) -> Seq<char>
    decreases days.len(),
{
    if days.len() == 0 {
        Seq::empty()
    } else {
        listed(days.drop_last()) + days.last().name() + ", "@
    }
}

/// The text that `display_days` gives for `days`.
pub open spec fn displayed(days: Seq<Day>) -> Seq<char> {
    if days.len() == 0 {
        Seq::empty()
    } else {
        listed(days.take(days.len() - 2)) + days[days.len() - 2].name() + " and "@
            + days[days.len() - 1].name()
    }
}

/// The names of the days in a sentence: commas between them, and `and`
/// before the last. No day gives the empty text. A single day cannot be
/// put this way.
pub fn display_days(days: &[Day]) -> (text: String)
    requires
        days@.len() != 1,
    ensures
        text@ == displayed(days@),
{
    if days.len() == 0 {
        return String::new();
    }
    let mut res = String::new();
    let head = days.len() - 2;
    let mut i: usize = 0;
    while i < head
        invariant
            i <= head,
            head == days@.len() - 2,
            res@ == listed(days@.take(i as int)),
        decreases head - i,
    {
        let name = days[i].to_string();
        res.append(name.as_str());
        res.append(", ");
        proof {
            let next = days@.take(i + 1);
            assert(next.drop_last() == days@.take(i as int));
            assert(res@ =~= listed(next));
        }
        i += 1;
    }
    let name = days[days.len() - 2].to_string();
    res.append(name.as_str());
    res.append(" and ");
    let name = days[days.len() - 1].to_string();
    res.append(name.as_str());
    res
}

/// The texts `a`, `b` and `c`, one after the other.
pub fn concat3(a: &str, b: &str, c: &str) -> (text: String)
    ensures
        text@ == a@ + b@ + c@,
{
    let mut text = String::from_str(a);
    text.append(b);
    text.append(c);
    text
}

/// The texts `before`, `text` and `after`, one after the other.
pub open spec fn framed(before: Seq<char>, text: Seq<char>, after: Seq<char>) -> Seq<char> {
    before + text + after
}

/// Whether `styled` is `text` as a terminal is to print it in some style:
/// the text itself, or the text between the codes that switch the style on
/// and off. Of a text that holds the escape character nothing is said.
pub open spec fn is_styled(styled: Seq<char>, text: Seq<char>) -> bool {
    text.contains('\u{1b}') || exists|before: Seq<char>, after: Seq<char>|
        styled == #[trigger] framed(before, text, after)
}

/// The text in bold, by `colored::Colorize::bold`. Trusted: what comes back
/// is the text itself, or the text between the codes that make a terminal
/// print it in bold. Which of the two depends on where the program runs, and
/// nothing is said of it, nor of a text that holds the escape character.
#[verifier::external_body]
pub(crate) fn bold(text: &str) -> (styled: String)
    ensures
        is_styled(styled@, text@),
{
    text.bold().to_string()
}

/// The text in a faint colour, by `colored::Colorize::bright_black`. Trusted
/// as `bold` is: what comes back is the text itself, or the text between
/// the codes of the colour.
#[verifier::external_body]
pub(crate) fn bright_black(text: &str) -> (styled: String)
    ensures
        is_styled(styled@, text@),
{
    text.bright_black().to_string()
}

/// The characters of each text of `lines`.
pub open spec fn texts(lines: Seq<String>) -> Seq<Seq<char>> {
    Seq::new(lines.len(), |i: int| lines[i]@)
}

/// The lines into which `textwrap::wrap` breaks `text` so that none is wider
/// than `width` columns, as far as the words allow it.
pub uninterp spec fn wrapped(text: Seq<char>, width: int) -> Seq<Seq<char>>;

/// The lines into which `text` is broken so that none is wider than `width`
/// columns, by `textwrap::wrap` with its default options. Trusted: the lines
/// depend on the text and the width alone.
#[verifier::external_body]
pub(crate) fn wrap(text: &str, width: usize) -> (lines: Vec<String>)
    ensures
        texts(lines@) == wrapped(text@, width as int),
{
    textwrap::wrap(text, width).into_iter().map(|line| line.into_owned()).collect()
}

} // verus!
