//! The reminder plugin: messages tied to calendar dates, of which "show"
//! lists those due today.
use vstd::prelude::*;
use crate::registry::Plugin;
use chrono::Datelike;
use crate::text::{decimal, decimal_of, fixed_decimal, fixed_digits};

verus! {

/// A calendar date as year, month (from one) and day of month (from one).
#[derive(Clone, Copy, PartialEq, Eq, Structural, Debug)]
pub struct CalDate {
    pub year: i32,
    pub month: u32,
    pub day: u32,
}

impl CalDate {
    pub open spec fn wf(&self) -> bool {
        &&& 1 <= self.month <= 12
        &&& 1 <= self.day <= 31
    }
}

/// A message to be shown on a date.
pub struct ReminderNote {
    pub date: CalDate,
    pub message: String,
}

/// The reminder plugin, bound to the file that holds its notes.
pub struct ReminderPlugin {
    filename: String,
}

/// Why a reminder could not be read or added.
#[derive(Clone, Copy, PartialEq, Eq, Structural, Debug)]
pub enum ReminderError {
    /// The text is no date of the form year-month-day.
    WrongDateFormat,
}

/// The date that chrono reads from `text` in the layout `fmt`, as
/// (year, month, day), if it reads one.
pub uninterp spec fn parsed_date_time(text: Seq<char>, fmt: Seq<char>) -> Option<(int, int, int)>;

/// Relies on chrono::NaiveDateTime::parse_from_str, and on Datelike's
/// month (1 to 12) and day (1 to 31) of the date it parses.
#[verifier::external_body]
fn parse_date_time(text: &str, fmt: &str) -> (r: Option<CalDate>)
    ensures
        r matches Some(d) ==> d.wf() && parsed_date_time(text@, fmt@) == Some(
            (d.year as int, d.month as int, d.day as int),
        ),
        r is None ==> parsed_date_time(text@, fmt@) is None,
{
    match chrono::NaiveDateTime::parse_from_str(text, fmt) {
        Ok(t) => Some(CalDate { year: t.year(), month: t.month(), day: t.day() }),
        Err(_) => None,
    }
}

/// Relies on chrono::Local::now and DateTime::date_naive: today's date in
/// the machine's time zone, with month 1 to 12 and day 1 to 31.
#[verifier::external_body]
fn today() -> (r: CalDate)
    ensures
        r.wf(),
{
    let d = chrono::Local::now().date_naive();
    CalDate { year: d.year(), month: d.month(), day: d.day() }
}

/// The layout in which dates are stored and read.
pub open spec fn stamp_format() -> Seq<char> {
    "%Y-%m-%d %H:%M:%S"@
}

/// What a stored or typed date text must turn into.
pub open spec fn date_result(text: Seq<char>) -> Result<CalDate, ReminderError> {
    match parsed_date_time(text, stamp_format()) {
        None => Err(ReminderError::WrongDateFormat),
        Some((y, m, d)) => Ok(CalDate { year: y as i32, month: m as u32, day: d as u32 }),
    }
}

/// The year as `%Y` writes it: four digits for years 0 to 9999, else a
/// sign and at least four digits.
pub open spec fn year_text(y: int) -> Seq<char> {
    if 0 <= y <= 9999 {
        fixed_digits(y as nat, 4)
    } else {
        let a: nat = if y < 0 { (-y) as nat } else { y as nat };
        (if y < 0 { "-"@ } else { "+"@ }) + if a < 10000 {
            fixed_digits(a, 4)
        } else {
            decimal_of(a)
        }
    }
}

/// The stored text of a date: `YYYY-MM-DD 00:00:00`.
pub open spec fn stamp_of(d: CalDate) -> Seq<char> {
    year_text(d.year as int) + "-"@ + fixed_digits(d.month as nat, 2) + "-"@
        + fixed_digits(d.day as nat, 2) + " 00:00:00"@
}

/// The date read from a stamp, given what chrono parsed from it.
pub fn date_of_parse(parsed: Option<CalDate>) -> (r: Result<CalDate, ReminderError>)
    ensures
        r == match parsed {
            Some(d) => Ok::<CalDate, ReminderError>(d),
            None => Err(ReminderError::WrongDateFormat),
        },
{
    match parsed {
        Some(d) => Ok(d),
        None => Err(ReminderError::WrongDateFormat),
    }
}

fn read_stamp(text: &str) -> (r: Result<CalDate, ReminderError>)
    ensures
        r == date_result(text@),
        r matches Ok(d) ==> d.wf(),
{
    date_of_parse(parse_date_time(text, "%Y-%m-%d %H:%M:%S"))
}

/// Reads a date typed as `YYYY-MM-DD`.
pub fn parse_date(arg: &str) -> (r: Result<CalDate, ReminderError>)
    ensures
        r == date_result(arg@ + " 00:00:00"@),
        r matches Ok(d) ==> d.wf(),
{
    let text = String::from_str(arg).concat(" 00:00:00");
    read_stamp(text.as_str())
}

/// Writes a year as `%Y` does.
pub fn write_year(y: i32) -> (r: String)
    ensures
        r@ == year_text(y as int),
{
    if 0 <= y && y <= 9999 {
        return fixed_decimal(y as u64, 4);
    }
    let a: u64 = if y < 0 { (-(y as i64)) as u64 } else { y as u64 };
    let mut s = if y < 0 { String::from_str("-") } else { String::from_str("+") };
    if a < 10000 {
        s.append(fixed_decimal(a, 4).as_str());
    } else {
        s.append(decimal(a).as_str());
    }
    s
}

impl ReminderNote {
    /// A note read back from its stored date text and message.
    pub fn from_stored(date_text: &str, message: &str) -> (r: Result<ReminderNote, ReminderError>)
        ensures
            match date_result(date_text@) {
                Ok(d) => r matches Ok(n) && n.date == d && n.message@ == message@,
                Err(e) => r matches Err(f) && f == e,
            },
            r matches Ok(n) ==> n.date.wf(),
    {
        match read_stamp(date_text) {
            Ok(d) => Ok(ReminderNote { date: d, message: String::from_str(message) }),
            Err(e) => Err(e),
        }
    }

    /// The text under which the note's date is stored.
    pub fn stamp(&self) -> (r: String)
        requires
            self.date.wf(),
        ensures
            r@ == stamp_of(self.date),
    {
        let mut s = write_year(self.date.year);
        s.append("-");
        s.append(fixed_decimal(self.date.month as u64, 2).as_str());
        s.append("-");
        s.append(fixed_decimal(self.date.day as u64, 2).as_str());
        s.append(" 00:00:00");
        s
    }
}

/// The messages of the notes dated `today`, in their order.
pub open spec fn due_messages(notes: Seq<ReminderNote>, today: CalDate) -> Seq<Seq<char>>
    decreases notes.len(),
{
    if notes.len() == 0 {
        seq![]
    } else {
        let rest = due_messages(notes.drop_last(), today);
        if notes.last().date == today {
            rest.push(notes.last().message@)
        } else {
            rest
        }
    }
}

/// One indented line per message, each preceded by a line break.
pub open spec fn indented_lines(msgs: Seq<Seq<char>>) -> Seq<char>
    decreases msgs.len(),
{
    if msgs.len() == 0 {
        seq![]
    } else {
        indented_lines(msgs.drop_last()) + "\n  "@ + msgs.last()
    }
}

/// The summary for `today`: nothing when no note is due, else a header
/// and the due messages.
pub open spec fn reminder_summary(notes: Seq<ReminderNote>, today: CalDate) -> Option<Seq<char>> {
    let due = due_messages(notes, today);
    if due.len() == 0 {
        None
    } else {
        Some("----- REMINDERS ------"@ + indented_lines(due))
    }
}

/// The summary as text, for comparing with a returned string.
pub open spec fn text_of(r: Option<String>) -> Option<Seq<char>> {
    match r {
        Some(s) => Some(s@),
        None => None,
    }
}

impl ReminderPlugin {
    /// The path of the file that holds the notes.
    pub closed spec fn path(&self) -> Seq<char> {
        self.filename@
    }

    /// The plugin keeping its notes in `remind.yml` under `data_dir`.
    pub fn new(data_dir: &str) -> (r: ReminderPlugin)
        ensures
            r.path() == data_dir@ + "/remind.yml"@,
    {
        ReminderPlugin { filename: String::from_str(data_dir).concat("/remind.yml") }
    }

    /// The file that holds the notes.
    pub fn filename(&self) -> (r: &str)
        ensures
            r@ == self.path(),
    {
        self.filename.as_str()
    }

    /// Appends a note.
    pub fn add(notes: &mut Vec<ReminderNote>, note: ReminderNote)
        ensures
            final(notes)@ == old(notes)@.push(note),
    {
        notes.push(note);
    }

    /// Adds the message under the date typed as `YYYY-MM-DD`. A date that
    /// cannot be read is refused before anything changes.
    pub fn add_command(notes: &mut Vec<ReminderNote>, date_arg: &str, message: &str) -> (r: Result<(), ReminderError>)
        ensures
            match date_result(date_arg@ + " 00:00:00"@) {
                Ok(d) => {
                    &&& r is Ok
                    &&& final(notes)@.len() == old(notes)@.len() + 1
                    &&& final(notes)@.drop_last() == old(notes)@
                    &&& final(notes)@.last().date == d
                    &&& final(notes)@.last().message@ == message@
                },
                Err(e) => r == Err::<(), ReminderError>(e) && final(notes)@ == old(notes)@,
            },
    {
        match parse_date(date_arg) {
            Ok(d) => {
                let ghost before = notes@;
                Self::add(notes, ReminderNote { date: d, message: String::from_str(message) });
                assert(notes@.drop_last() =~= before);
                Ok(())
            },
            Err(e) => Err(e),
        }
    }

    /// The summary of the notes due on `today`.
    pub fn show_at(notes: &Vec<ReminderNote>, today: CalDate) -> (r: Option<String>)
        ensures
            text_of(r) == reminder_summary(notes@, today),
    {
        let mut res = String::from_str("----- REMINDERS ------");
        let mut any = false;
        let mut i: usize = 0;
        while i < notes.len()
            invariant
                i <= notes@.len(),
                res@ == "----- REMINDERS ------"@ + indented_lines(
                    due_messages(notes@.take(i as int), today),
                ),
                any == (due_messages(notes@.take(i as int), today).len() > 0),
            decreases notes@.len() - i,
        {
            proof {
                assert(notes@.take(i as int + 1).drop_last() =~= notes@.take(i as int));
            }
            if notes[i].date == today {
                res.append("\n  ");
                res.append(notes[i].message.as_str());
                any = true;
                proof {
                    let due = due_messages(notes@.take(i as int + 1), today);
                    assert(due.drop_last() == due_messages(notes@.take(i as int), today));
                    assert(res@ =~= "----- REMINDERS ------"@ + indented_lines(due));
                }
            }
            i = i + 1;
        }
        assert(notes@.take(i as int) =~= notes@);
        if any {
            Some(res)
        } else {
            None
        }
    }

    /// The summary of the notes due today, by the machine's clock.
    pub fn show(notes: &Vec<ReminderNote>) -> (r: Option<String>)
        ensures
            exists|t: CalDate| t.wf() && text_of(r) == reminder_summary(notes@, t),
    {
        let t = today();
        Self::show_at(notes, t)
    }
}

impl Plugin for ReminderPlugin {
    open spec fn plugin_name(&self) -> Seq<char> {
        "remind"@
    }

    fn name(&self) -> (r: String) {
        String::from_str("remind")
    }
}

} // verus!
