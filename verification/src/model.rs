//! The stored records: the user profile and the daily log entries, and how
//! they are laid out as the text columns of their database rows.

use vstd::prelude::*;

verus! {

/// The identifier under which the single user profile is stored.
pub const PROFILE_ID: i32 = 1;

/// The user whose reports are made.
#[derive(Debug, Clone)]
pub struct UserProfile {
    pub id: i32,
    pub name: String,
    pub ni: String,
    pub role: String,
    pub work_unit: String,
    pub signature_path: Option<String>,
}

/// What was done on one day.
#[derive(Debug, Clone)]
pub struct DailyLog {
    /// `YYYY-MM-DD`
    pub date: String,
    /// `HH:MM`
    pub check_in: Option<String>,
    /// `HH:MM`
    pub check_out: Option<String>,
    pub attendance_note: Option<String>,
    pub activity_desc: Option<String>,
    pub activity_output: Option<String>,
    pub activity_note: Option<String>,
    pub photo_path: Option<String>,
}

/// A row whose columns do not make a record.
#[derive(Debug, Clone, Copy, PartialEq, Eq, Structural)]
pub enum ColumnError {
    /// The row has another number of text columns than the record has.
    WrongCount { found: usize },
    /// A column that the record needs holds no value (SQL `NULL`); its
    /// index is the column's place in the row.
    Null { index: usize },
}

/// A profile with id 0, empty texts and no signature.
pub open spec fn is_blank_profile(p: UserProfile) -> bool {
    &&& p.id == 0
    &&& p.name@ == Seq::<char>::empty()
    &&& p.ni@ == Seq::<char>::empty()
    &&& p.role@ == Seq::<char>::empty()
    &&& p.work_unit@ == Seq::<char>::empty()
    &&& p.signature_path is None
}

impl Default for UserProfile {
    fn default() -> (p: Self)
        ensures
            is_blank_profile(p),
    {
        UserProfile {
            id: 0,
            name: String::new(),
            ni: String::new(),
            role: String::new(),
            work_unit: String::new(),
            signature_path: None,
        }
    }
}

/// The stored profile, or a blank one where none is stored.
pub fn profile_or_default(stored: Option<UserProfile>) -> (p: UserProfile)
    ensures
        match stored {
            Some(s) => p == s,
            None => is_blank_profile(p),
        },
{
    match stored {
        Some(p) => p,
        None => UserProfile::default(),
    }
}

pub fn clone_text(t: &Option<String>) -> (c: Option<String>)
    ensures
        c == *t,
{
    match t {
        Some(s) => Some(s.clone()),
        None => None,
    }
}

/// The text columns of the profile row after its id: name, NI, role, work
/// unit and signature path.
pub open spec fn profile_columns_of(p: UserProfile) -> Seq<Option<String>> {
    seq![Some(p.name), Some(p.ni), Some(p.role), Some(p.work_unit), p.signature_path]
}

/// The columns of a daily log row: the date, then the check-in, check-out,
/// attendance note, activity, output, activity note and photo path.
pub open spec fn daily_log_columns_of(l: DailyLog) -> Seq<Option<String>> {
    seq![
        Some(l.date),
        l.check_in,
        l.check_out,
        l.attendance_note,
        l.activity_desc,
        l.activity_output,
        l.activity_note,
        l.photo_path,
    ]
}

/// The profile that a row holds: the id, then the text columns in the
/// order of `profile_columns_of`. The name, NI, role and work unit must
/// hold a value; the first that does not is the error (its index counts
/// the id as column 0).
pub open spec fn profile_from_columns_spec(id: i32, cols: Seq<Option<String>>) -> Result<
    UserProfile,
    ColumnError,
> {
    if cols.len() != 5 {
        Err(ColumnError::WrongCount { found: cols.len() as usize })
    } else if cols[0] is None {
        Err(ColumnError::Null { index: 1 })
    } else if cols[1] is None {
        Err(ColumnError::Null { index: 2 })
    } else if cols[2] is None {
        Err(ColumnError::Null { index: 3 })
    } else if cols[3] is None {
        Err(ColumnError::Null { index: 4 })
    } else {
        Ok(
            UserProfile {
                id,
                name: cols[0].unwrap(),
                ni: cols[1].unwrap(),
                role: cols[2].unwrap(),
                work_unit: cols[3].unwrap(),
                signature_path: cols[4],
            },
        )
    }
}

/// The daily log that a row holds, its columns in the order of
/// `daily_log_columns_of`; the date must hold a value.
pub open spec fn daily_log_from_columns_spec(cols: Seq<Option<String>>) -> Result<
    DailyLog,
    ColumnError,
> {
    if cols.len() != 8 {
        Err(ColumnError::WrongCount { found: cols.len() as usize })
    } else if cols[0] is None {
        Err(ColumnError::Null { index: 0 })
    } else {
        Ok(
            DailyLog {
                date: cols[0].unwrap(),
                check_in: cols[1],
                check_out: cols[2],
                attendance_note: cols[3],
                activity_desc: cols[4],
                activity_output: cols[5],
                activity_note: cols[6],
                photo_path: cols[7],
            },
        )
    }
}

/// The values that saving a profile binds to its statement.
pub fn profile_columns(p: &UserProfile) -> (cols: Vec<Option<String>>)
    ensures
        cols@ == profile_columns_of(*p),
{
    let mut cols: Vec<Option<String>> = Vec::new();
    cols.push(Some(p.name.clone()));
    cols.push(Some(p.ni.clone()));
    cols.push(Some(p.role.clone()));
    cols.push(Some(p.work_unit.clone()));
    cols.push(clone_text(&p.signature_path));
    assert(cols@ =~= profile_columns_of(*p));
    cols
}

/// The values that saving a daily log binds to its statement.
pub fn daily_log_columns(l: &DailyLog) -> (cols: Vec<Option<String>>)
    ensures
        cols@ == daily_log_columns_of(*l),
{
    let mut cols: Vec<Option<String>> = Vec::new();
    cols.push(Some(l.date.clone()));
    cols.push(clone_text(&l.check_in));
    cols.push(clone_text(&l.check_out));
    cols.push(clone_text(&l.attendance_note));
    cols.push(clone_text(&l.activity_desc));
    cols.push(clone_text(&l.activity_output));
    cols.push(clone_text(&l.activity_note));
    cols.push(clone_text(&l.photo_path));
    assert(cols@ =~= daily_log_columns_of(*l));
    cols
}

/// Reads a profile from the id and the text columns of its row.
pub fn profile_from_columns(id: i32, cols: Vec<Option<String>>) -> (r: Result<UserProfile, ColumnError>)
    ensures
        r == profile_from_columns_spec(id, cols@),
{
    if cols.len() != 5 {
        return Err(ColumnError::WrongCount { found: cols.len() });
    }
    let ghost c = cols@;
    let mut cols = cols;
    let signature_path = cols.pop().unwrap();
    let work_unit = cols.pop().unwrap();
    let role = cols.pop().unwrap();
    let ni = cols.pop().unwrap();
    let name = cols.pop().unwrap();
    match (name, ni, role, work_unit) {
        (None, _, _, _) => Err(ColumnError::Null { index: 1 }),
        (_, None, _, _) => Err(ColumnError::Null { index: 2 }),
        (_, _, None, _) => Err(ColumnError::Null { index: 3 }),
        (_, _, _, None) => Err(ColumnError::Null { index: 4 }),
        (Some(name), Some(ni), Some(role), Some(work_unit)) => Ok(
            UserProfile { id, name, ni, role, work_unit, signature_path },
        ),
    }
}

/// Reads a daily log from the columns of its row.
pub fn daily_log_from_columns(cols: Vec<Option<String>>) -> (r: Result<DailyLog, ColumnError>)
    ensures
        r == daily_log_from_columns_spec(cols@),
{
    if cols.len() != 8 {
        return Err(ColumnError::WrongCount { found: cols.len() });
    }
    let mut cols = cols;
    let photo_path = cols.pop().unwrap();
    let activity_note = cols.pop().unwrap();
    let activity_output = cols.pop().unwrap();
    let activity_desc = cols.pop().unwrap();
    let attendance_note = cols.pop().unwrap();
    let check_out = cols.pop().unwrap();
    let check_in = cols.pop().unwrap();
    let date = cols.pop().unwrap();
    match date {
        None => Err(ColumnError::Null { index: 0 }),
        Some(date) => Ok(
            DailyLog {
                date,
                check_in,
                check_out,
                attendance_note,
                activity_desc,
                activity_output,
                activity_note,
                photo_path,
            },
        ),
    }
}

/// The `LIKE` pattern that selects the dates of a month: the month's
/// `YYYY-MM` followed by `%`.
pub fn month_pattern(year_month: &str) -> (pattern: String)
    ensures
        pattern@ == year_month@ + seq!['%'],
{
    let mut pattern = String::from_str(year_month);
    proof { reveal_strlit("%"); }
    pattern.append("%");
    pattern
}

/// A profile saved and read back has the same texts and signature, under
/// the id the profile is stored with.
pub proof fn lemma_profile_columns_round_trip(p: UserProfile)
    ensures
        profile_from_columns_spec(PROFILE_ID, profile_columns_of(p)) == Ok::<UserProfile, ColumnError>(
            UserProfile { id: PROFILE_ID, ..p },
        ),
{
}

/// A daily log saved and read back is the same log.
pub proof fn lemma_daily_log_columns_round_trip(l: DailyLog)
    ensures
        daily_log_from_columns_spec(daily_log_columns_of(l)) == Ok::<DailyLog, ColumnError>(l),
{
}

} // verus!
