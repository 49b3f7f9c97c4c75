use chrono::Datelike;
use termassist::registry::{route, summaries, wrong_params, Plugin, Route};
use termassist::remind::{date_of_parse, parse_date, CalDate, ReminderError, ReminderNote, ReminderPlugin};
use termassist::text::{decimal, fixed_decimal, join_words, same_text};
use termassist::todo::{TodoError, TodoPlugin};

fn date(year: i32, month: u32, day: u32) -> CalDate {
    CalDate { year, month, day }
}

fn note(d: CalDate, msg: &str) -> ReminderNote {
    ReminderNote { date: d, message: msg.to_string() }
}

#[test]
fn todo_add_show_done_renumbers() {
    let mut msgs: Vec<String> = Vec::new();
    assert_eq!(TodoPlugin::add(&mut msgs, "buy milk"), 1);
    assert_eq!(TodoPlugin::add(&mut msgs, "call mom"), 2);
    assert_eq!(
        TodoPlugin::show(&msgs),
        Some("----- TODO ------\n1. buy milk\n2. call mom".to_string())
    );
    assert_eq!(TodoPlugin::remove(&mut msgs, 1), Ok("buy milk".to_string()));
    assert_eq!(TodoPlugin::show(&msgs), Some("----- TODO ------\n1. call mom".to_string()));
}

#[test]
fn todo_show_empty_is_nothing() {
    let msgs: Vec<String> = Vec::new();
    assert_eq!(TodoPlugin::show(&msgs), None);
}

#[test]
fn todo_round_trip_keeps_order() {
    let mut msgs: Vec<String> = Vec::new();
    let input = ["one", "two", "three", "four"];
    for m in input.iter() {
        TodoPlugin::add(&mut msgs, m);
    }
    assert_eq!(msgs, input.iter().map(|s| s.to_string()).collect::<Vec<_>>());
    assert_eq!(TodoPlugin::remove(&mut msgs, 3), Ok("three".to_string()));
    assert_eq!(msgs, vec!["one".to_string(), "two".to_string(), "four".to_string()]);
}

#[test]
fn todo_remove_out_of_range_is_refused() {
    let mut msgs = vec!["a".to_string()];
    assert_eq!(TodoPlugin::remove(&mut msgs, 0), Err(TodoError::NoSuchItem));
    assert_eq!(TodoPlugin::remove(&mut msgs, 2), Err(TodoError::NoSuchItem));
    assert_eq!(msgs, vec!["a".to_string()]);
}

#[test]
fn todo_add_words_joins_with_spaces() {
    let mut msgs: Vec<String> = Vec::new();
    let words = vec!["buy".to_string(), "milk".to_string()];
    assert_eq!(TodoPlugin::add_words(&mut msgs, &words), 1);
    assert_eq!(msgs, vec!["buy milk".to_string()]);
}

#[test]
fn todo_add_words_trims_the_message() {
    let mut msgs: Vec<String> = Vec::new();
    TodoPlugin::add_words(&mut msgs, &vec![" a".to_string()]);
    TodoPlugin::add_words(&mut msgs, &vec!["x".to_string(), "y\t".to_string()]);
    assert_eq!(msgs, vec!["a".to_string(), "x y".to_string()]);
}

#[test]
fn todo_names_and_paths() {
    let p = TodoPlugin::new("/home/u/.local/share/termassist");
    assert_eq!(p.name(), "todo");
    assert_eq!(p.filename(), "/home/u/.local/share/termassist/todo.yml");
    assert_eq!(TodoPlugin::error_summary("boom"), "Error in TodoPlugin show(): boom");
}

#[test]
fn reminders_due_today_only() {
    let d1 = date(2024, 3, 4);
    let d2 = date(2024, 3, 5);
    let d3 = date(2024, 3, 6);
    let notes = vec![note(d1, "first"), note(d2, "second"), note(d3, "third"), note(d2, "fourth")];
    assert_eq!(
        ReminderPlugin::show_at(&notes, d2),
        Some("----- REMINDERS ------\n  second\n  fourth".to_string())
    );
    assert_eq!(ReminderPlugin::show_at(&notes, date(2024, 3, 7)), None);
    assert_eq!(ReminderPlugin::show_at(&Vec::new(), d2), None);
}

#[test]
fn reminders_show_uses_todays_date() {
    let now = chrono::Local::now().date_naive();
    let today = date(now.year(), now.month(), now.day());
    let notes = vec![note(today, "due now"), note(date(1999, 1, 1), "long ago")];
    let shown = ReminderPlugin::show(&notes).expect("a note is due");
    assert!(shown.contains("due now"));
    assert!(!shown.contains("long ago"));
}

#[test]
fn parse_date_reads_year_month_day() {
    assert_eq!(parse_date("2024-03-05"), Ok(date(2024, 3, 5)));
    assert_eq!(parse_date("2024-3-5"), Ok(date(2024, 3, 5)));
    assert_eq!(parse_date("05/03/2024"), Err(ReminderError::WrongDateFormat));
    assert_eq!(parse_date("2024-02-30"), Err(ReminderError::WrongDateFormat));
    assert_eq!(parse_date("+10000-01-01"), Ok(date(10000, 1, 1)));
}

#[test]
fn stored_dates_round_trip() {
    let n = ReminderNote::from_stored("2024-03-05 00:00:00", "hi").ok().unwrap();
    assert_eq!(n.date, date(2024, 3, 5));
    assert_eq!(n.message, "hi");
    assert_eq!(n.stamp(), "2024-03-05 00:00:00");
    assert_eq!(note(date(33, 12, 1), "x").stamp(), "0033-12-01 00:00:00");
    assert!(ReminderNote::from_stored("tomorrow", "x").is_err());
}

#[test]
fn stamps_of_signed_years() {
    assert_eq!(note(date(10000, 1, 2), "x").stamp(), "+10000-01-02 00:00:00");
    assert_eq!(note(date(-33, 12, 1), "x").stamp(), "-0033-12-01 00:00:00");
    assert_eq!(note(date(-12345, 6, 7), "x").stamp(), "-12345-06-07 00:00:00");
    for d in [date(10000, 1, 2), date(-33, 12, 1), date(-12345, 6, 7), date(7, 2, 28)] {
        let n = note(d, "m");
        let back = ReminderNote::from_stored(&n.stamp(), "m").ok().unwrap();
        assert_eq!(back.date, d);
    }
}

#[test]
fn date_of_parse_maps_missing_to_error() {
    assert_eq!(date_of_parse(Some(date(2024, 1, 2))), Ok(date(2024, 1, 2)));
    assert_eq!(date_of_parse(None), Err(ReminderError::WrongDateFormat));
}

#[test]
fn reminder_add_command() {
    let mut notes: Vec<ReminderNote> = Vec::new();
    assert_eq!(ReminderPlugin::add_command(&mut notes, "2024-03-05", "dentist"), Ok(()));
    assert_eq!(notes.len(), 1);
    assert_eq!(notes[0].date, date(2024, 3, 5));
    assert_eq!(notes[0].message, "dentist");
    assert_eq!(
        ReminderPlugin::add_command(&mut notes, "soon", "x"),
        Err(ReminderError::WrongDateFormat)
    );
    assert_eq!(notes.len(), 1);
}

#[test]
fn reminder_names_and_paths() {
    let p = ReminderPlugin::new("/d");
    assert_eq!(p.name(), "remind");
    assert_eq!(p.filename(), "/d/remind.yml");
}

#[test]
fn registry_routes_by_name() {
    let names = vec!["todo".to_string(), "remind".to_string()];
    assert_eq!(route(&names, Some("show")), Route::ShowAll);
    assert_eq!(route(&names, Some("todo")), Route::Plugin(0));
    assert_eq!(route(&names, Some("remind")), Route::Plugin(1));
    assert_eq!(route(&names, Some("weather")), Route::Unknown);
    assert_eq!(route(&names, None), Route::Unknown);
    assert_eq!(wrong_params(), "Wrong params. Use --help");
}

#[test]
fn registry_keeps_non_empty_summaries_in_order() {
    let got = summaries(vec![Some("a".to_string()), None, Some("b".to_string())]);
    assert_eq!(got, vec!["a".to_string(), "b".to_string()]);
    assert!(summaries(vec![None, None]).is_empty());
}

#[test]
fn text_helpers() {
    assert_eq!(decimal(0), "0");
    assert_eq!(decimal(1234), "1234");
    assert_eq!(fixed_decimal(7, 2), "07");
    assert_eq!(fixed_decimal(2024, 4), "2024");
    assert!(same_text("abc", "abc"));
    assert!(!same_text("abc", "abd"));
    assert!(!same_text("ab", "abc"));
    assert_eq!(join_words(&vec!["a".to_string(), "b".to_string(), "c".to_string()]), "a b c");
    assert_eq!(join_words(&Vec::new()), "");
}
