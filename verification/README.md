# laporan_bulanan

A monthly work report for one employee: a profile, one log entry per day
(attendance times, activity, output, notes, a photo), and a monthly export
with a work sheet, an attendance sheet and a photo section.

- `src/` is the verified library (Verus): the records and their database
  columns (`model`), the calendar of a month through chrono (`calendar`),
  `HH:MM` times and hours worked (`clock`), the rows of the monthly sheets
  (`report`), the decisions of the profile screen (`ui`), and decimal
  text (`text`).
- `app/` is the program around it: the SQLite database (rusqlite), the
  Excel (rust_xlsxwriter) and PDF (genpdf) writers, and the Slint window.
