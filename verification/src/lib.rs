//! Monthly work report ("laporan bulanan"): the profile and daily-log
//! records, the calendar of a month, attendance hours, the rows of the
//! monthly work and attendance sheets, and the decisions of the profile
//! screen.

pub mod calendar;
pub mod clock;
pub mod model;
pub mod report;
pub mod text;
pub mod ui;

use vstd::prelude::*;

use crate::model::UserProfile;
use crate::ui::{empty_form, form_from_profile, form_is_empty, shows_profile, ProfileForm};

verus! {

/// The file name of the database on desktop systems.
pub fn db_path() -> (path: String)
    ensures
        path@ == "laporan_bulanan.db"@,
{
    String::from_str("laporan_bulanan.db")
}

/// The state the profile screen opens with, given what loading the stored
/// profile gave: the stored profile's fields where there is one, and empty
/// fields where there is none or loading failed.
pub fn create_ui(stored: Result<Option<UserProfile>, String>) -> (form: ProfileForm)
    ensures
        form.status_message@ == Seq::<char>::empty(),
        match stored {
            Ok(Some(p)) => shows_profile(form, p),
            _ => form_is_empty(form),
        },
{
    match stored {
        Ok(Some(profile)) => form_from_profile(&profile),
        _ => empty_form(),
    }
}

} // verus!
