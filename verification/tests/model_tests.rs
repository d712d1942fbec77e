use laporan_bulanan::model::{
    daily_log_columns, daily_log_from_columns, month_pattern, profile_columns,
    profile_from_columns, profile_or_default, ColumnError, DailyLog, UserProfile, PROFILE_ID,
};

fn profile() -> UserProfile {
    UserProfile {
        id: 7,
        name: "Siti".to_string(),
        ni: "1987".to_string(),
        role: "Analis".to_string(),
        work_unit: "Biro Umum".to_string(),
        signature_path: Some("/tmp/ttd.png".to_string()),
    }
}

fn log() -> DailyLog {
    DailyLog {
        date: "2026-09-01".to_string(),
        check_in: Some("08:00".to_string()),
        check_out: None,
        attendance_note: Some("Dinas".to_string()),
        activity_desc: Some("Rapat".to_string()),
        activity_output: None,
        activity_note: None,
        photo_path: Some("/tmp/a.jpg".to_string()),
    }
}

#[test]
fn profile_columns_round_trip_under_the_profile_id() {
    let p = profile();
    let cols = profile_columns(&p);
    assert_eq!(cols.len(), 5);
    assert_eq!(cols[0].as_deref(), Some("Siti"));
    assert_eq!(cols[4].as_deref(), Some("/tmp/ttd.png"));
    let back = profile_from_columns(PROFILE_ID, cols).unwrap();
    assert_eq!(back.id, 1);
    assert_eq!(back.name, "Siti");
    assert_eq!(back.ni, "1987");
    assert_eq!(back.role, "Analis");
    assert_eq!(back.work_unit, "Biro Umum");
    assert_eq!(back.signature_path.as_deref(), Some("/tmp/ttd.png"));
}

#[test]
fn profile_columns_that_miss_a_value_are_refused() {
    let cols = vec![Some("a".to_string()), None, None, Some("d".to_string()), None];
    assert_eq!(profile_from_columns(1, cols).unwrap_err(), ColumnError::Null { index: 2 });
    let cols = vec![Some("a".to_string())];
    assert_eq!(profile_from_columns(1, cols).unwrap_err(), ColumnError::WrongCount { found: 1 });
    let cols = vec![Some("a".to_string()), Some("b".to_string()), Some("c".to_string()), Some("d".to_string()), None];
    assert_eq!(profile_from_columns(1, cols).unwrap().signature_path, None);
}

#[test]
fn daily_log_columns_round_trip() {
    let l = log();
    let cols = daily_log_columns(&l);
    assert_eq!(cols.len(), 8);
    assert_eq!(cols[0].as_deref(), Some("2026-09-01"));
    assert_eq!(cols[1].as_deref(), Some("08:00"));
    assert_eq!(cols[4].as_deref(), Some("Rapat"));
    let back = daily_log_from_columns(cols).unwrap();
    assert_eq!(back.date, l.date);
    assert_eq!(back.check_in, l.check_in);
    assert_eq!(back.check_out, l.check_out);
    assert_eq!(back.attendance_note, l.attendance_note);
    assert_eq!(back.activity_desc, l.activity_desc);
    assert_eq!(back.activity_output, l.activity_output);
    assert_eq!(back.activity_note, l.activity_note);
    assert_eq!(back.photo_path, l.photo_path);
}

#[test]
fn daily_log_without_a_date_is_refused() {
    let mut cols = daily_log_columns(&log());
    cols[0] = None;
    assert_eq!(daily_log_from_columns(cols).unwrap_err(), ColumnError::Null { index: 0 });
    assert_eq!(daily_log_from_columns(vec![]).unwrap_err(), ColumnError::WrongCount { found: 0 });
}

#[test]
fn month_pattern_ends_with_a_wildcard() {
    assert_eq!(month_pattern("2026-09"), "2026-09%");
}

#[test]
fn missing_profile_is_blank() {
    let p = profile_or_default(None);
    assert_eq!(p.id, 0);
    assert_eq!(p.name, "");
    assert_eq!(p.signature_path, None);
    assert_eq!(profile_or_default(Some(profile())).name, "Siti");
    let d = UserProfile::default();
    assert_eq!(d.work_unit, "");
}
