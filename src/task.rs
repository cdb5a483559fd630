//! Records mirrored from the remote service: tasks, projects and sections.
use chrono::Datelike;
use vstd::prelude::*;

verus! {

/// A calendar date as year, month (1 to 12) and day of the month.
#[derive(Clone, Copy, Debug, PartialEq, Eq, Structural)]
pub struct Date {
    pub year: i32,
    pub month: u32,
    pub day: u32,
}

impl Date {
    /// The month and the day lie in their calendar ranges.
    pub open spec fn in_calendar_range(self) -> bool {
        1 <= self.month <= 12 && 1 <= self.day <= 31
    }

    /// Strict calendar order: by year, then month, then day.
    pub open spec fn before(self, other: Date) -> bool {
        self.year < other.year || (self.year == other.year && (self.month < other.month || (
        self.month == other.month && self.day < other.day)))
    }

    /// Whether `self` falls strictly before `other` on the calendar.
    pub fn is_before(&self, other: &Date) -> (r: bool)
        ensures
            r == self.before(*other),
    {
        self.year < other.year || (self.year == other.year && (self.month < other.month || (
        self.month == other.month && self.day < other.day)))
    }
}

/// Relies on chrono's `Local::now` and `DateTime::date_naive`: the calendar
/// date of the local clock, whose month is 1 to 12 and day 1 to 31.
#[verifier::external_body]
pub(crate) fn local_today() -> (r: Date)
    ensures
        r.in_calendar_range(),
{
    let d = chrono::Local::now().date_naive();
    Date { year: d.year(), month: d.month(), day: d.day() }
}

/// The date that a text names in the form year-month-day, as chrono reads it.
pub uninterp spec fn parsed_ymd(s: Seq<char>) -> Option<Date>;

/// Relies on chrono's `NaiveDate::parse_from_str` with the pattern
/// `%Y-%m-%d`: the date that the text names, or none when it names no date;
/// a date it gives has its month in 1 to 12 and its day in 1 to 31.
#[verifier::external_body]
fn parse_ymd(s: &str) -> (r: Option<Date>)
    ensures
        r == parsed_ymd(s@),
        r is Some ==> r.unwrap().in_calendar_range(),
{
    match chrono::NaiveDate::parse_from_str(s, "%Y-%m-%d") {
        Ok(d) => Some(Date { year: d.year(), month: d.month(), day: d.day() }),
        Err(_) => None,
    }
}

/// When a task is due.
#[derive(Clone, Debug)]
pub struct Due {
    /// The due date as the user wrote it ("every monday").
    pub string: String,
    pub date: Date,
    pub is_recurring: bool,
    pub datetime: Option<String>,
    pub timezone: Option<String>,
}

impl Due {
    /// A due specification whose date is written year-month-day in
    /// `date_text`; none when that text names no date.
    pub fn new(
        string: String,
        date_text: &str,
        is_recurring: bool,
        datetime: Option<String>,
        timezone: Option<String>,
    ) -> (r: Option<Due>)
        ensures
            match parsed_ymd(date_text@) {
                Some(d) => r == Some(
                    Due { string: string, date: d, is_recurring: is_recurring, datetime: datetime, timezone: timezone },
                ),
                None => r is None,
            },
    {
        match parse_ymd(date_text) {
            Some(date) => Some(Due { string, date, is_recurring, datetime, timezone }),
            None => None,
        }
    }
}

/// How long a task is expected to take.
#[derive(Clone, Debug)]
pub struct Duration {
    pub amount: u32,
    pub unit: String,
}

/// One task of the remote list.
#[derive(Clone, Debug)]
pub struct Task {
    pub id: String,
    pub project_id: String,
    pub section_id: Option<String>,
    pub content: String,
    pub description: String,
    pub is_completed: bool,
    pub labels: Vec<String>,
    pub parent_id: Option<String>,
    pub order: i32,
    pub priority: u8,
    pub due: Option<Due>,
    pub url: String,
    pub comment_count: u16,
    pub created_at: String,
    pub creator_id: String,
    pub assignee_id: Option<String>,
    pub assigner_id: Option<String>,
    pub duration: Option<Duration>,
}

/// `t` is a direct sub-task of the task whose id is `id`.
pub open spec fn has_parent(t: Task, id: Seq<char>) -> bool {
    match t.parent_id {
        Some(p) => p@ == id,
        None => false,
    }
}

/// `t` has no parent: it is shown in the top-level lists.
pub open spec fn is_top_level(t: Task) -> bool {
    t.parent_id is None
}

/// The text of a task's due specification, empty when it has none.
pub open spec fn due_text(t: Task) -> Seq<char> {
    match t.due {
        Some(d) => d.string@,
        None => Seq::empty(),
    }
}

/// Whether `t` is a direct sub-task of the task whose id is `id`.
pub fn is_child_of(t: &Task, id: &String) -> (r: bool)
    ensures
        r == has_parent(*t, id@),
{
    match &t.parent_id {
        Some(p) => p.eq(id),
        None => false,
    }
}

/// The text of a task's due specification, empty when it has none.
pub fn due_string_of(t: &Task) -> (r: String)
    ensures
        r@ == due_text(*t),
{
    match &t.due {
        Some(d) => d.string.clone(),
        None => String::new(),
    }
}

/// The label of a priority as the user sees it: the remote priority 4 is
/// the most urgent, "P1"; an unknown priority has no label.
pub open spec fn priority_label_spec(priority: u8) -> Seq<char> {
    if priority == 1 {
        "P4"@
    } else if priority == 2 {
        "P3"@
    } else if priority == 3 {
        "P2"@
    } else if priority == 4 {
        "P1"@
    } else {
        ""@
    }
}

/// The label of a priority as the user sees it.
pub fn priority_label(priority: u8) -> (r: &'static str)
    ensures
        r@ == priority_label_spec(priority),
{
    if priority == 1 {
        "P4"
    } else if priority == 2 {
        "P3"
    } else if priority == 3 {
        "P2"
    } else if priority == 4 {
        "P1"
    } else {
        ""
    }
}

/// The three-letter English name of month `month` (1 to 12); empty for any
/// other number.
pub open spec fn month_abbrev_spec(month: u32) -> Seq<char> {
    if month == 1 {
        "Jan"@
    } else if month == 2 {
        "Feb"@
    } else if month == 3 {
        "Mar"@
    } else if month == 4 {
        "Apr"@
    } else if month == 5 {
        "May"@
    } else if month == 6 {
        "Jun"@
    } else if month == 7 {
        "Jul"@
    } else if month == 8 {
        "Aug"@
    } else if month == 9 {
        "Sep"@
    } else if month == 10 {
        "Oct"@
    } else if month == 11 {
        "Nov"@
    } else if month == 12 {
        "Dec"@
    } else {
        ""@
    }
}

/// The three-letter English name of a month.
pub fn month_abbrev(month: u32) -> (r: &'static str)
    ensures
        r@ == month_abbrev_spec(month),
{
    if month == 1 {
        "Jan"
    } else if month == 2 {
        "Feb"
    } else if month == 3 {
        "Mar"
    } else if month == 4 {
        "Apr"
    } else if month == 5 {
        "May"
    } else if month == 6 {
        "Jun"
    } else if month == 7 {
        "Jul"
    } else if month == 8 {
        "Aug"
    } else if month == 9 {
        "Sep"
    } else if month == 10 {
        "Oct"
    } else if month == 11 {
        "Nov"
    } else if month == 12 {
        "Dec"
    } else {
        ""
    }
}

/// How a project lays out its tasks.
#[derive(Clone, Copy, Debug, PartialEq, Eq, Structural)]
pub enum ListType {
    Board,
    List,
}

/// A project of the remote service.
#[derive(Clone, Debug)]
pub struct Project {
    pub id: String,
    pub name: String,
    pub comment_count: u8,
    pub order: u8,
    pub color: String,
    pub is_shared: bool,
    pub is_favorite: bool,
    pub is_inbox_project: bool,
    pub is_team_inbox: bool,
    pub view_style: ListType,
    pub url: String,
    pub parent_id: Option<String>,
}

/// A section of a project.
#[derive(Clone, Debug)]
pub struct Section {
    pub id: String,
    pub project_id: String,
    pub order: u16,
    pub name: String,
}

/// The sections known locally.
#[derive(Debug)]
pub struct Sections {
    pub sections: Vec<Section>,
}

impl Sections {
    /// Holds `items` as they are.
    pub fn new(items: Vec<Section>) -> (r: Sections)
        ensures
            r.sections@ == items@,
    {
        Sections { sections: items }
    }
}

} // verus!
