use habit::habit::Day;
use habit::utils::{concat3, decimal, display_days, left_pad, same_text};

#[test]
fn left_pad_fills_up_to_the_length() {
    assert_eq!(left_pad("7", '0', 2), "07");
    assert_eq!(left_pad("17", '0', 2), "17");
    assert_eq!(left_pad("117", '0', 2), "117");
    assert_eq!(left_pad("", 'x', 3), "xxx");
    assert_eq!(left_pad("", 'x', 0), "");
    assert_eq!(left_pad("abc", ' ', 6), "   abc");
    assert_eq!(left_pad("abc", 'é', 5), "ééabc");
}

#[test]
fn left_pad_counts_bytes() {
    // `é` takes two bytes: the text is three bytes long
    assert_eq!(left_pad("aé", '.', 3), "aé");
    assert_eq!(left_pad("aé", '.', 4), ".aé");
}

#[test]
fn days_are_put_in_a_sentence() {
    assert_eq!(display_days(&[]), "");
    assert_eq!(display_days(&[Day::Monday, Day::Tuesday]), "Monday and Tuesday");
    assert_eq!(
        display_days(&[Day::Monday, Day::Wednesday, Day::Friday]),
        "Monday, Wednesday and Friday"
    );
    assert_eq!(
        display_days(&[
            Day::Monday,
            Day::Tuesday,
            Day::Wednesday,
            Day::Thursday,
            Day::Friday,
            Day::Saturday,
            Day::Sunday
        ]),
        "Monday, Tuesday, Wednesday, Thursday, Friday, Saturday and Sunday"
    );
    assert_eq!(display_days(&[Day::Sunday, Day::Sunday]), "Sunday and Sunday");
}

#[test]
fn numbers_in_decimal() {
    assert_eq!(decimal(0), "0");
    assert_eq!(decimal(7), "7");
    assert_eq!(decimal(10), "10");
    assert_eq!(decimal(1234567890), "1234567890");
    assert_eq!(decimal(u64::MAX), "18446744073709551615");
    for n in 0..2000u64 {
        assert_eq!(decimal(n), n.to_string());
    }
}

#[test]
fn texts_are_compared_by_their_characters() {
    assert!(same_text("", ""));
    assert!(same_text("Monday", "Monday"));
    assert!(!same_text("Monday", "Monda"));
    assert!(!same_text("Monday", "Mondax"));
    assert!(!same_text("é", "e"));
    assert!(same_text("日本", "日本"));
    assert_eq!(concat3("a", "", "c"), "ac");
    assert_eq!(concat3("Habit '", "run", "' done"), "Habit 'run' done");
}
