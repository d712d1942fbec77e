use laporan_bulanan::model::{DailyLog, UserProfile};
use laporan_bulanan::report::{
    build_monthly_report, documentation_entries, find_log, pdf_profile_lines, photo_caption,
    sheet_profile_fields, year_month,
};

fn log(date: &str) -> DailyLog {
    DailyLog {
        date: date.to_string(),
        check_in: None,
        check_out: None,
        attendance_note: None,
        activity_desc: None,
        activity_output: None,
        activity_note: None,
        photo_path: None,
    }
}

fn profile() -> UserProfile {
    UserProfile {
        id: 1,
        name: "Budi".to_string(),
        ni: "123".to_string(),
        role: "Staf".to_string(),
        work_unit: "TU".to_string(),
        signature_path: None,
    }
}

#[test]
fn year_month_is_zero_padded() {
    assert_eq!(year_month(2026, 9), "2026-09");
    assert_eq!(year_month(2026, 12), "2026-12");
    assert_eq!(year_month(5, 1), "0005-01");
    assert_eq!(year_month(-1, 1), "-001-01");
    assert_eq!(year_month(10000, 3), "10000-03");
}

#[test]
fn the_last_log_of_a_date_is_found() {
    let mut a = log("2026-09-01");
    a.activity_desc = Some("first".to_string());
    let mut b = log("2026-09-01");
    b.activity_desc = Some("second".to_string());
    let logs = vec![a, log("2026-09-02"), b];
    let found = find_log(&logs, &"2026-09-01".to_string()).unwrap();
    assert_eq!(found.activity_desc.as_deref(), Some("second"));
    assert!(find_log(&logs, &"2026-09-03".to_string()).is_none());
}

#[test]
fn empty_month_marks_weekends_only() {
    let report = build_monthly_report(2026, 9, &vec![]);
    assert_eq!(report.year_month, "2026-09");
    assert_eq!(report.work_rows.len(), 30);
    assert_eq!(report.attendance_rows.len(), 30);
    // 2026-09-01 is a Tuesday, 2026-09-05 a Saturday.
    let tue = &report.work_rows[0];
    assert_eq!(tue.date, "2026-09-01");
    assert_eq!(tue.day_name, "Selasa");
    assert_eq!((tue.activity.as_str(), tue.output.as_str(), tue.note.as_str()), ("", "", ""));
    let sat = &report.work_rows[4];
    assert_eq!(sat.date, "2026-09-05");
    assert_eq!(sat.day_name, "Sabtu");
    assert_eq!((sat.activity.as_str(), sat.output.as_str(), sat.note.as_str()), ("-", "-", "Libur"));
    let sun = &report.attendance_rows[5];
    assert_eq!(sun.date, "2026-09-06");
    assert_eq!(sun.day_name, "Minggu");
    assert_eq!(sun.note, "Libur");
    assert_eq!(sun.check_in, "");
    assert_eq!(sun.total_hours, "");
    assert_eq!(report.attendance_rows[29].date, "2026-09-30");
}

#[test]
fn logged_days_show_their_entries() {
    let mut tue = log("2026-09-01");
    tue.check_in = Some("08:00".to_string());
    tue.check_out = Some("16:15".to_string());
    tue.activity_desc = Some("Menyusun laporan".to_string());
    tue.activity_output = Some("Draf".to_string());
    let mut sat = log("2026-09-05");
    sat.activity_note = Some("Lembur".to_string());
    sat.attendance_note = Some("Piket".to_string());
    let mut wed = log("2026-09-02");
    wed.check_in = Some("08:00".to_string());
    let logs = vec![tue, sat, wed, log("2026-10-01")];
    let report = build_monthly_report(2026, 9, &logs);

    let w = &report.work_rows[0];
    assert_eq!(w.activity, "Menyusun laporan");
    assert_eq!(w.output, "Draf");
    assert_eq!(w.note, "");
    let a = &report.attendance_rows[0];
    assert_eq!(a.check_in, "08:00");
    assert_eq!(a.check_out, "16:15");
    assert_eq!(a.total_hours, "08:15");
    assert_eq!(a.initials, "");
    assert_eq!(a.note, "");

    let w = &report.work_rows[4];
    assert_eq!((w.activity.as_str(), w.output.as_str(), w.note.as_str()), ("-", "-", "Lembur"));
    assert_eq!(report.attendance_rows[4].note, "Piket");

    let a = &report.attendance_rows[1];
    assert_eq!(a.check_in, "08:00");
    assert_eq!(a.check_out, "");
    assert_eq!(a.total_hours, "");
}

#[test]
fn february_of_a_leap_year_has_twenty_nine_rows() {
    let report = build_monthly_report(2024, 2, &vec![]);
    assert_eq!(report.work_rows.len(), 29);
    assert_eq!(report.work_rows[28].date, "2024-02-29");
    assert_eq!(report.work_rows[28].day_name, "Kamis");
}

#[test]
fn every_date_of_the_month_starts_with_the_month() {
    let report = build_monthly_report(2025, 12, &vec![]);
    for row in &report.work_rows {
        assert!(row.date.starts_with(&format!("{}-", report.year_month)));
    }
}

#[test]
fn only_found_photos_are_documented() {
    let mut a = log("2026-09-01");
    a.photo_path = Some("a.jpg".to_string());
    let b = log("2026-09-02");
    let mut c = log("2026-09-03");
    c.photo_path = Some("c.jpg".to_string());
    let mut e = log("2026-09-04");
    e.photo_path = Some("e.jpg".to_string());
    let logs = vec![a, b, c, e];
    let entries = documentation_entries(&logs, &vec![true, true, false, true]);
    assert_eq!(entries.len(), 2);
    assert_eq!(entries[0].date, "2026-09-01");
    assert_eq!(entries[0].photo_path, "a.jpg");
    assert_eq!(entries[1].date, "2026-09-04");
    assert_eq!(entries[1].photo_path, "e.jpg");
    assert_eq!(photo_caption("2026-09-04"), "Tanggal: 2026-09-04");
}

#[test]
fn profile_blocks() {
    let p = profile();
    let lines = pdf_profile_lines(&p, "2026-09");
    assert_eq!(
        lines,
        vec![
            "Nama       : Budi",
            "NI         : 123",
            "Jabatan    : Staf",
            "Periode    : 2026-09",
            "Unit Kerja : TU",
        ]
    );
    let fields = sheet_profile_fields(&p, "2026-09");
    let pairs: Vec<(&str, &str)> = fields.iter().map(|f| (f.label.as_str(), f.value.as_str())).collect();
    assert_eq!(
        pairs,
        vec![
            ("Nama", ": Budi"),
            ("NI", ": 123"),
            ("Jabatan", ": Staf"),
            ("Periode", ": 2026-09"),
            ("Unit Kerja", ": TU"),
        ]
    );
}
