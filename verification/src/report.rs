//! The contents of the monthly report: the work sheet and the attendance
//! sheet with one row per day of the month, the profile lines above them
//! and the photo pages after them.

use vstd::prelude::*;

use crate::calendar::{
    WeekDay,
    CalDate, day_name, day_name_id, day_of_month, days_in_month, is_weekend, is_weekend_day,
    iso_date, iso_date_text, month_days, reportable_month, valid, weekday, weekday_of, year_text,
};
use crate::clock::{total_hours_str, total_hours_text};
use crate::model::{DailyLog, UserProfile};
use crate::text::{padded, push_padded, push_signed_padded, signed_padded};

verus! {

/// One day of the work sheet.
#[derive(Debug)]
pub struct WorkRow {
    pub date: String,
    pub day_name: String,
    pub activity: String,
    pub output: String,
    pub note: String,
}

/// One day of the attendance sheet.
#[derive(Debug)]
pub struct AttendanceRow {
    pub date: String,
    pub day_name: String,
    pub check_in: String,
    pub check_out: String,
    pub total_hours: String,
    pub initials: String,
    pub note: String,
}

/// One photo of the documentation pages.
#[derive(Debug)]
pub struct DocEntry {
    pub date: String,
    pub photo_path: String,
}

/// A label and its value, as the spreadsheet's profile block shows them.
#[derive(Debug)]
pub struct ProfileField {
    pub label: String,
    pub value: String,
}

/// The rows of both sheets of a month.
#[derive(Debug)]
pub struct MonthlyReport {
    /// The month as `YYYY-MM`.
    pub year_month: String,
    pub work_rows: Vec<WorkRow>,
    pub attendance_rows: Vec<AttendanceRow>,
}

/// The month as std's `{:04}-{:02}` writes the year and the month.
pub open spec fn year_month_text(year: int, month: int) -> Seq<char> {
    signed_padded(year, 4) + seq!['-'] + padded(month as nat, 2)
}

/// The log that a map from date to log, filled from `logs` in order, holds
/// for `date`: the last log with that date.
pub open spec fn last_log_for(logs: Seq<DailyLog>, date: Seq<char>) -> Option<DailyLog>
    decreases logs.len(),
{
    if logs.len() == 0 {
        None
    } else if logs.last().date@ == date {
        Some(logs.last())
    } else {
        last_log_for(logs.drop_last(), date)
    }
}

pub open spec fn text_of(t: Option<String>) -> Option<Seq<char>> {
    match t {
        Some(s) => Some(s@),
        None => None,
    }
}

/// The text of a field of the day's log where the log and the field are
/// there, and `otherwise` where not.
pub open spec fn logged_or(field: Option<Seq<char>>, otherwise: Seq<char>) -> Seq<char> {
    match field {
        Some(s) => s,
        None => otherwise,
    }
}

/// What a work-sheet cell shows on a day without an entry: a dash on
/// weekends.
pub open spec fn weekend_dash(weekend: bool) -> Seq<char> {
    if weekend {
        "-"@
    } else {
        Seq::empty()
    }
}

/// What a note cell shows on a day without a note: `Libur` on weekends.
pub open spec fn weekend_off(weekend: bool) -> Seq<char> {
    if weekend {
        "Libur"@
    } else {
        Seq::empty()
    }
}

pub open spec fn field_of(log: Option<DailyLog>, f: spec_fn(DailyLog) -> Option<String>) -> Option<
    Seq<char>,
> {
    match log {
        Some(l) => text_of(f(l)),
        None => None,
    }
}

/// The work-sheet row of `day`, given the day's log.
pub open spec fn is_work_row(row: WorkRow, day: CalDate, log: Option<DailyLog>) -> bool {
    let weekend = is_weekend_day(weekday_of(day));
    &&& row.date@ == iso_date_text(day)
    &&& row.day_name@ == day_name(weekday_of(day))
    &&& row.activity@ == logged_or(field_of(log, |l: DailyLog| l.activity_desc), weekend_dash(weekend))
    &&& row.output@ == logged_or(field_of(log, |l: DailyLog| l.activity_output), weekend_dash(weekend))
    &&& row.note@ == logged_or(field_of(log, |l: DailyLog| l.activity_note), weekend_off(weekend))
}

/// The attendance-sheet row of `day`, given the day's log: the total hours
/// are worked out only for a day with a log.
pub open spec fn is_attendance_row(row: AttendanceRow, day: CalDate, log: Option<DailyLog>) -> bool {
    let weekend = is_weekend_day(weekday_of(day));
    let check_in = logged_or(field_of(log, |l: DailyLog| l.check_in), Seq::empty());
    let check_out = logged_or(field_of(log, |l: DailyLog| l.check_out), Seq::empty());
    &&& row.date@ == iso_date_text(day)
    &&& row.day_name@ == day_name(weekday_of(day))
    &&& row.check_in@ == check_in
    &&& row.check_out@ == check_out
    &&& row.total_hours@ == (if log is Some {
        total_hours_text(check_in, check_out)
    } else {
        Seq::empty()
    })
    &&& row.initials@ == Seq::<char>::empty()
    &&& row.note@ == logged_or(field_of(log, |l: DailyLog| l.attendance_note), weekend_off(weekend))
}

/// The log of the day `d` of the report month.
pub open spec fn log_of_day(logs: Seq<DailyLog>, day: CalDate) -> Option<DailyLog> {
    last_log_for(logs, iso_date_text(day))
}

/// The report of a month: one row per day, in order, on each sheet.
pub open spec fn is_monthly_report(
    r: MonthlyReport,
    year: int,
    month: int,
    logs: Seq<DailyLog>,
) -> bool {
    &&& r.year_month@ == year_month_text(year, month)
    &&& r.work_rows@.len() == days_in_month(year, month)
    &&& r.attendance_rows@.len() == days_in_month(year, month)
    &&& forall|i: int|
        0 <= i < days_in_month(year, month) ==> is_work_row(
            #[trigger] r.work_rows@[i],
            day_of_month(year, month, i + 1),
            log_of_day(logs, day_of_month(year, month, i + 1)),
        )
    &&& forall|i: int|
        0 <= i < days_in_month(year, month) ==> is_attendance_row(
            #[trigger] r.attendance_rows@[i],
            day_of_month(year, month, i + 1),
            log_of_day(logs, day_of_month(year, month, i + 1)),
        )
}

/// The photos of the logs whose photo file was found, in the order of the
/// logs.
pub open spec fn doc_entries_of(logs: Seq<DailyLog>, found: Seq<bool>) -> Seq<DocEntry>
    decreases logs.len(),
{
    if logs.len() == 0 {
        Seq::empty()
    } else {
        let rest = doc_entries_of(logs.drop_last(), found.take(logs.len() - 1));
        let l = logs.last();
        if l.photo_path is Some && found[logs.len() - 1] {
            rest.push(DocEntry { date: l.date, photo_path: l.photo_path.unwrap() })
        } else {
            rest
        }
    }
}

/// The month written `YYYY-MM`, as std's `{:04}-{:02}` writes it.
pub fn year_month(year: i32, month: u32) -> (t: String)
    ensures
        t@ == year_month_text(year as int, month as int),
{
    let mut t = String::new();
    push_signed_padded(&mut t, year as i64, 4);
    proof { reveal_strlit("-"); }
    t.append("-");
    push_padded(&mut t, month as u64, 2);
    assert(t@ =~= year_month_text(year as int, month as int));
    t
}

/// The log that a map from date to log, filled from `logs` in order, finds
/// for `date`.
pub fn find_log<'a>(logs: &'a Vec<DailyLog>, date: &String) -> (r: Option<&'a DailyLog>)
    ensures
        match r {
            Some(l) => last_log_for(logs@, date@) == Some(*l),
            None => last_log_for(logs@, date@) is None,
        },
{
    let mut i = logs.len();
    assert(logs@.take(i as int) =~= logs@);
    while i > 0
        invariant
            i <= logs@.len(),
            last_log_for(logs@, date@) == last_log_for(logs@.take(i as int), date@),
        decreases i,
    {
        let ghost prefix = logs@.take(i as int);
        assert(prefix.drop_last() =~= logs@.take(i - 1));
        i = i - 1;
        if logs[i].date == *date {
            return Some(&logs[i]);
        }
    }
    assert(logs@.take(0) =~= Seq::<DailyLog>::empty());
    None
}

fn text_or_keep(field: &Option<String>, current: String) -> (t: String)
    ensures
        t@ == logged_or(text_of(*field), current@),
{
    match field {
        Some(s) => s.clone(),
        None => current,
    }
}

pub open spec fn deref_log(log: Option<&DailyLog>) -> Option<DailyLog> {
    match log {
        Some(l) => Some(*l),
        None => None,
    }
}

fn dash_or_empty(weekend: bool) -> (t: String)
    ensures
        t@ == weekend_dash(weekend),
{
    if weekend {
        String::from_str("-")
    } else {
        String::new()
    }
}

fn off_or_empty(weekend: bool) -> (t: String)
    ensures
        t@ == weekend_off(weekend),
{
    if weekend {
        String::from_str("Libur")
    } else {
        String::new()
    }
}

/// The work-sheet row of a day: on weekends a dash for the activity and
/// output and `Libur` as the note, then each field of the day's log that is
/// filled in.
pub fn work_row(day: CalDate, log: Option<&DailyLog>) -> (row: WorkRow)
    requires
        valid(day),
    ensures
        is_work_row(row, day, deref_log(log)),
{
    let w = weekday(day);
    let weekend = is_weekend(w);
    let mut activity = dash_or_empty(weekend);
    let mut output = dash_or_empty(weekend);
    let mut note = off_or_empty(weekend);
    if let Some(l) = log {
        activity = text_or_keep(&l.activity_desc, activity);
        output = text_or_keep(&l.activity_output, output);
        note = text_or_keep(&l.activity_note, note);
    }
    WorkRow {
        date: iso_date(day),
        day_name: String::from_str(day_name_id(w)),
        activity,
        output,
        note,
    }
}

/// The attendance-sheet row of a day: `Libur` as the note on weekends;
/// for a day with a log, its check-in and check-out, the hours between
/// them and its note where filled in. The initials cell stays empty.
pub fn attendance_row(day: CalDate, log: Option<&DailyLog>) -> (row: AttendanceRow)
    requires
        valid(day),
    ensures
        is_attendance_row(row, day, deref_log(log)),
{
    let w = weekday(day);
    let weekend = is_weekend(w);
    let mut check_in = String::new();
    let mut check_out = String::new();
    let mut total_hours = String::new();
    let mut note = off_or_empty(weekend);
    if let Some(l) = log {
        check_in = text_or_keep(&l.check_in, check_in);
        check_out = text_or_keep(&l.check_out, check_out);
        total_hours = total_hours_str(check_in.as_str(), check_out.as_str());
        note = text_or_keep(&l.attendance_note, note);
    }
    AttendanceRow {
        date: iso_date(day),
        day_name: String::from_str(day_name_id(w)),
        check_in,
        check_out,
        total_hours,
        initials: String::new(),
        note,
    }
}

/// The rows of both sheets for every day of the month, each filled from
/// the log of its date.
pub fn build_monthly_report(year: i32, month: u32, logs: &Vec<DailyLog>) -> (report:
    MonthlyReport)
    requires
        reportable_month(year as int, month as int),
    ensures
        is_monthly_report(report, year as int, month as int, logs@),
{
    let days = month_days(year, month);
    let ghost n = days_in_month(year as int, month as int);
    let mut work_rows: Vec<WorkRow> = Vec::new();
    let mut attendance_rows: Vec<AttendanceRow> = Vec::new();
    let mut i: usize = 0;
    while i < days.len()
        invariant
            reportable_month(year as int, month as int),
            n == days_in_month(year as int, month as int),
            days@.len() == n,
            forall|j: int|
                0 <= j < days@.len() ==> #[trigger] days@[j] == day_of_month(
                    year as int,
                    month as int,
                    j + 1,
                ),
            i <= days@.len(),
            work_rows@.len() == i,
            attendance_rows@.len() == i,
            forall|j: int|
                0 <= j < i ==> is_work_row(
                    #[trigger] work_rows@[j],
                    day_of_month(year as int, month as int, j + 1),
                    log_of_day(logs@, day_of_month(year as int, month as int, j + 1)),
                ),
            forall|j: int|
                0 <= j < i ==> is_attendance_row(
                    #[trigger] attendance_rows@[j],
                    day_of_month(year as int, month as int, j + 1),
                    log_of_day(logs@, day_of_month(year as int, month as int, j + 1)),
                ),
        decreases days@.len() - i,
    {
        let day = days[i];
        assert(day == day_of_month(year as int, month as int, i + 1));
        assert(valid(day));
        let date = iso_date(day);
        let log = find_log(logs, &date);
        assert(deref_log(log) == log_of_day(logs@, day));
        work_rows.push(work_row(day, log));
        attendance_rows.push(attendance_row(day, log));
        i = i + 1;
    }
    MonthlyReport { year_month: year_month(year, month), work_rows, attendance_rows }
}

/// The photos to show: the logs with a photo path whose file was found
/// (`found[i]` tells it for `logs[i]`), in the order of the logs.
pub fn documentation_entries(logs: &Vec<DailyLog>, found: &Vec<bool>) -> (entries: Vec<DocEntry>)
    requires
        logs@.len() == found@.len(),
    ensures
        entries@ == doc_entries_of(logs@, found@),
{
    let mut entries: Vec<DocEntry> = Vec::new();
    let mut i: usize = 0;
    while i < logs.len()
        invariant
            logs@.len() == found@.len(),
            i <= logs@.len(),
            entries@ == doc_entries_of(logs@.take(i as int), found@.take(i as int)),
        decreases logs@.len() - i,
    {
        proof {
            let t = logs@.take(i + 1);
            assert(t.drop_last() =~= logs@.take(i as int));
            assert(found@.take(i + 1).take(i as int) =~= found@.take(i as int));
            assert(t.last() == logs@[i as int]);
        }
        let l = &logs[i];
        match &l.photo_path {
            Some(path) => {
                if found[i] {
                    entries.push(DocEntry { date: l.date.clone(), photo_path: path.clone() });
                }
            },
            None => {},
        }
        i = i + 1;
    }
    assert(logs@.take(logs@.len() as int) =~= logs@);
    assert(found@.take(found@.len() as int) =~= found@);
    entries
}

/// The caption above a photo.
pub fn photo_caption(date: &str) -> (caption: String)
    ensures
        caption@ == "Tanggal: "@ + date@,
{
    let caption = String::from_str("Tanggal: ");
    caption.concat(date)
}

fn labelled(label: &str, value: &str) -> (t: String)
    ensures
        t@ == label@ + value@,
{
    let t = String::from_str(label);
    t.concat(value)
}

/// The profile block of the printed report: name, NI, role, period and
/// work unit, each label padded so that the colons line up.
pub fn pdf_profile_lines(profile: &UserProfile, year_month: &str) -> (lines: Vec<String>)
    ensures
        lines@.len() == 5,
        lines@[0]@ == "Nama       : "@ + profile.name@,
        lines@[1]@ == "NI         : "@ + profile.ni@,
        lines@[2]@ == "Jabatan    : "@ + profile.role@,
        lines@[3]@ == "Periode    : "@ + year_month@,
        lines@[4]@ == "Unit Kerja : "@ + profile.work_unit@,
{
    let mut lines: Vec<String> = Vec::new();
    lines.push(labelled("Nama       : ", profile.name.as_str()));
    lines.push(labelled("NI         : ", profile.ni.as_str()));
    lines.push(labelled("Jabatan    : ", profile.role.as_str()));
    lines.push(labelled("Periode    : ", year_month));
    lines.push(labelled("Unit Kerja : ", profile.work_unit.as_str()));
    lines
}

fn field(label: &str, value: &str) -> (f: ProfileField)
    ensures
        f.label@ == label@,
        f.value@ == ": "@ + value@,
{
    ProfileField { label: String::from_str(label), value: labelled(": ", value) }
}

/// The profile block of the spreadsheet: each label beside `: ` and its
/// value.
pub fn sheet_profile_fields(profile: &UserProfile, year_month: &str) -> (fields: Vec<ProfileField>)
    ensures
        fields@.len() == 5,
        fields@[0].label@ == "Nama"@ && fields@[0].value@ == ": "@ + profile.name@,
        fields@[1].label@ == "NI"@ && fields@[1].value@ == ": "@ + profile.ni@,
        fields@[2].label@ == "Jabatan"@ && fields@[2].value@ == ": "@ + profile.role@,
        fields@[3].label@ == "Periode"@ && fields@[3].value@ == ": "@ + year_month@,
        fields@[4].label@ == "Unit Kerja"@ && fields@[4].value@ == ": "@ + profile.work_unit@,
{
    let mut fields: Vec<ProfileField> = Vec::new();
    fields.push(field("Nama", profile.name.as_str()));
    fields.push(field("NI", profile.ni.as_str()));
    fields.push(field("Jabatan", profile.role.as_str()));
    fields.push(field("Periode", year_month));
    fields.push(field("Unit Kerja", profile.work_unit.as_str()));
    fields
}

/// For years 0 to 9999 every day of a month is written as the month's
/// `YYYY-MM`, a dash and the day, so the month's `LIKE` pattern selects it.
pub proof fn lemma_day_text_extends_month_text(year: int, month: int, day: int)
    requires
        0 <= year <= 9999,
        1 <= month <= 12,
        1 <= day <= 31,
    ensures
        iso_date_text(day_of_month(year, month, day)) == year_month_text(year, month) + seq!['-']
            + padded(day as nat, 2),
{
    let d = day_of_month(year, month, day);
    assert(year_text(d.year as int) == signed_padded(year, 4));
    assert(iso_date_text(d) =~= year_month_text(year, month) + seq!['-'] + padded(day as nat, 2));
}


/// The log found for a date is the last log with that date.
pub proof fn lemma_last_log_is_last_match(logs: Seq<DailyLog>, date: Seq<char>, k: int)
    requires
        0 <= k < logs.len(),
        logs[k].date@ == date,
        forall|j: int| k < j < logs.len() ==> logs[j].date@ != date,
    ensures
        last_log_for(logs, date) == Some(logs[k]),
    decreases logs.len(),
{
    if k < logs.len() - 1 {
        assert(logs.last() == logs[logs.len() - 1]);
        lemma_last_log_is_last_match(logs.drop_last(), date, k);
    }
}

/// No log is found for a date that no log has.
pub proof fn lemma_no_log_for_unlogged_date(logs: Seq<DailyLog>, date: Seq<char>)
    requires
        forall|j: int| 0 <= j < logs.len() ==> logs[j].date@ != date,
    ensures
        last_log_for(logs, date) is None,
    decreases logs.len(),
{
    if logs.len() > 0 {
        assert(logs.last() == logs[logs.len() - 1]);
        lemma_no_log_for_unlogged_date(logs.drop_last(), date);
    }
}

/// Whatever the day of the week, every field filled in in a day's log
/// (the last log with that date) is what both sheets show for that day.
pub proof fn lemma_logged_fields_are_shown(
    r: MonthlyReport,
    year: int,
    month: int,
    logs: Seq<DailyLog>,
    i: int,
    k: int,
)
    requires
        is_monthly_report(r, year, month, logs),
        0 <= i < days_in_month(year, month),
        0 <= k < logs.len(),
        logs[k].date@ == iso_date_text(day_of_month(year, month, i + 1)),
        forall|j: int| k < j < logs.len() ==> logs[j].date@ != logs[k].date@,
    ensures
        r.work_rows@[i].date@ == logs[k].date@,
        r.attendance_rows@[i].date@ == logs[k].date@,
        logs[k].activity_desc matches Some(s) ==> r.work_rows@[i].activity@ == s@,
        logs[k].activity_output matches Some(s) ==> r.work_rows@[i].output@ == s@,
        logs[k].activity_note matches Some(s) ==> r.work_rows@[i].note@ == s@,
        logs[k].check_in matches Some(s) ==> r.attendance_rows@[i].check_in@ == s@,
        logs[k].check_out matches Some(s) ==> r.attendance_rows@[i].check_out@ == s@,
        logs[k].attendance_note matches Some(s) ==> r.attendance_rows@[i].note@ == s@,
        r.attendance_rows@[i].initials@ == Seq::<char>::empty(),
{
    let day = day_of_month(year, month, i + 1);
    lemma_last_log_is_last_match(logs, iso_date_text(day), k);
    assert(is_work_row(r.work_rows@[i], day, log_of_day(logs, day)));
    assert(is_attendance_row(r.attendance_rows@[i], day, log_of_day(logs, day)));
}

/// A day that no log has: on Saturday and Sunday the work sheet shows a
/// dash for the activity and the output and `Libur` as the note, and the
/// attendance sheet shows `Libur` as the note; on Monday to Friday every
/// cell but the date and the day's name is empty. The time cells are empty
/// on every such day.
pub proof fn lemma_unlogged_days(r: MonthlyReport, year: int, month: int, logs: Seq<DailyLog>, i: int)
    requires
        is_monthly_report(r, year, month, logs),
        0 <= i < days_in_month(year, month),
        forall|j: int|
            0 <= j < logs.len() ==> logs[j].date@ != iso_date_text(
                day_of_month(year, month, i + 1),
            ),
    ensures
        ({
            let w = weekday_of(day_of_month(year, month, i + 1));
            let work = r.work_rows@[i];
            let att = r.attendance_rows@[i];
            &&& att.check_in@ == Seq::<char>::empty()
            &&& att.check_out@ == Seq::<char>::empty()
            &&& att.total_hours@ == Seq::<char>::empty()
            &&& att.initials@ == Seq::<char>::empty()
            &&& (w == WeekDay::Sat || w == WeekDay::Sun) ==> {
                &&& work.activity@ == "-"@
                &&& work.output@ == "-"@
                &&& work.note@ == "Libur"@
                &&& att.note@ == "Libur"@
            }
            &&& (w != WeekDay::Sat && w != WeekDay::Sun) ==> {
                &&& work.activity@ == Seq::<char>::empty()
                &&& work.output@ == Seq::<char>::empty()
                &&& work.note@ == Seq::<char>::empty()
                &&& att.note@ == Seq::<char>::empty()
            }
        }),
{
    let day = day_of_month(year, month, i + 1);
    lemma_no_log_for_unlogged_date(logs, iso_date_text(day));
    assert(is_work_row(r.work_rows@[i], day, log_of_day(logs, day)));
    assert(is_attendance_row(r.attendance_rows@[i], day, log_of_day(logs, day)));
}

/// The log at `i` has a photo path and its file was found.
pub open spec fn photo_found(logs: Seq<DailyLog>, found: Seq<bool>, i: int) -> bool {
    logs[i].photo_path is Some && found[i]
}

/// The photo entries are exactly the logs with a photo path whose file was
/// found, in the order of the logs: the returned indices pick, in
/// increasing order, the log that each entry comes from, and every log with
/// a found photo is picked.
pub proof fn lemma_documentation_is_every_found_photo(
    logs: Seq<DailyLog>,
    found: Seq<bool>,
    entries: Seq<DocEntry>,
) -> (picked: Seq<int>)
    requires
        logs.len() == found.len(),
        entries == doc_entries_of(logs, found),
    ensures
        picked.len() == entries.len(),
        forall|a: int, b: int| 0 <= a < b < picked.len() ==> picked[a] < picked[b],
        forall|a: int|
            0 <= a < picked.len() ==> {
                &&& 0 <= #[trigger] picked[a] < logs.len()
                &&& photo_found(logs, found, picked[a])
                &&& entries[a].date == logs[picked[a]].date
                &&& Some(entries[a].photo_path) == logs[picked[a]].photo_path
            },
        forall|i: int|
            0 <= i < logs.len() && photo_found(logs, found, i) ==> exists|a: int|
                0 <= a < picked.len() && #[trigger] picked[a] == i,
    decreases logs.len(),
{
    if logs.len() == 0 {
        Seq::empty()
    } else {
        let n = logs.len() - 1;
        let pl = logs.drop_last();
        let pf = found.take(n);
        let rest = doc_entries_of(pl, pf);
        let prev = lemma_documentation_is_every_found_photo(pl, pf, rest);
        assert forall|i: int| 0 <= i < n implies photo_found(pl, pf, i) == photo_found(
            logs,
            found,
            i,
        ) by {}
        let l = logs.last();
        if l.photo_path is Some && found[n] {
            let picked = prev.push(n);
            assert(entries == rest.push(DocEntry { date: l.date, photo_path: l.photo_path.unwrap() }));
            assert forall|i: int|
                0 <= i < logs.len() && photo_found(logs, found, i) implies exists|a: int|
                0 <= a < picked.len() && #[trigger] picked[a] == i by {
                if i < n {
                    assert(photo_found(pl, pf, i));
                    let a = choose|a: int| 0 <= a < prev.len() && #[trigger] prev[a] == i;
                    assert(picked[a] == i);
                } else {
                    assert(picked[prev.len() as int] == i);
                }
            }
            assert forall|a: int|
                0 <= a < picked.len() implies {
                &&& 0 <= #[trigger] picked[a] < logs.len()
                &&& photo_found(logs, found, picked[a])
                &&& entries[a].date == logs[picked[a]].date
                &&& Some(entries[a].photo_path) == logs[picked[a]].photo_path
            } by {
                if a < prev.len() {
                    assert(picked[a] == prev[a]);
                    assert(photo_found(pl, pf, prev[a]));
                }
            }
            picked
        } else {
            assert(entries == rest);
            assert forall|i: int|
                0 <= i < logs.len() && photo_found(logs, found, i) implies exists|a: int|
                0 <= a < prev.len() && #[trigger] prev[a] == i by {
                assert(i < n);
                assert(photo_found(pl, pf, i));
            }
            assert forall|a: int|
                0 <= a < prev.len() implies {
                &&& 0 <= #[trigger] prev[a] < logs.len()
                &&& photo_found(logs, found, prev[a])
                &&& entries[a].date == logs[prev[a]].date
                &&& Some(entries[a].photo_path) == logs[prev[a]].photo_path
            } by {
                assert(photo_found(pl, pf, prev[a]));
            }
            prev
        }
    }
}

} // verus!
