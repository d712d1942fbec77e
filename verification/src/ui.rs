//! The decisions of the profile screen: what its fields show, what a save
//! stores and what the status line says afterwards.

use vstd::prelude::*;

use crate::model::{PROFILE_ID, UserProfile};

verus! {

/// The texts of the profile screen.
#[derive(Debug)]
pub struct ProfileForm {
    pub name: String,
    pub ni: String,
    pub role: String,
    pub work_unit: String,
    pub signature_path: String,
    pub status_message: String,
}

/// What the user did on the profile screen, or what came of it.
#[derive(Debug)]
pub enum UiEvent {
    SaveClicked,
    SaveFinished(Result<(), String>),
    PickSignatureClicked,
}

/// What the screen asks the program to do next.
#[derive(Debug)]
pub enum UiAction {
    Nothing,
    SaveProfile(UserProfile),
}

pub open spec fn optional_text(t: Option<String>) -> Seq<char> {
    match t {
        Some(s) => s@,
        None => Seq::empty(),
    }
}

/// The screen shows the profile: its texts, and its signature path or
/// nothing.
pub open spec fn shows_profile(f: ProfileForm, p: UserProfile) -> bool {
    &&& f.name@ == p.name@
    &&& f.ni@ == p.ni@
    &&& f.role@ == p.role@
    &&& f.work_unit@ == p.work_unit@
    &&& f.signature_path@ == optional_text(p.signature_path)
}

/// The profile that the screen's texts make: stored under the profile id,
/// with no signature where the signature field is empty.
pub open spec fn is_profile_of_form(p: UserProfile, f: ProfileForm) -> bool {
    &&& p.id == PROFILE_ID
    &&& p.name@ == f.name@
    &&& p.ni@ == f.ni@
    &&& p.role@ == f.role@
    &&& p.work_unit@ == f.work_unit@
    &&& match p.signature_path {
        Some(s) => f.signature_path@.len() > 0 && s@ == f.signature_path@,
        None => f.signature_path@.len() == 0,
    }
}

/// The status line after a save.
pub open spec fn save_status_text(result: Result<(), String>) -> Seq<char> {
    match result {
        Ok(()) => "Profil berhasil disimpan."@,
        Err(e) => "Gagal menyimpan: "@ + e@,
    }
}

pub open spec fn pick_signature_text() -> Seq<char> {
    "Pilih file TTD belum tersedia di versi ini."@
}

pub open spec fn form_is_empty(f: ProfileForm) -> bool {
    &&& f.name@ == Seq::<char>::empty()
    &&& f.ni@ == Seq::<char>::empty()
    &&& f.role@ == Seq::<char>::empty()
    &&& f.work_unit@ == Seq::<char>::empty()
    &&& f.signature_path@ == Seq::<char>::empty()
    &&& f.status_message@ == Seq::<char>::empty()
}

/// Every text field the same, the status line aside.
pub open spec fn same_fields(a: ProfileForm, b: ProfileForm) -> bool {
    &&& a.name@ == b.name@
    &&& a.ni@ == b.ni@
    &&& a.role@ == b.role@
    &&& a.work_unit@ == b.work_unit@
    &&& a.signature_path@ == b.signature_path@
}

/// The screen with every field empty.
pub fn empty_form() -> (f: ProfileForm)
    ensures
        form_is_empty(f),
{
    ProfileForm {
        name: String::new(),
        ni: String::new(),
        role: String::new(),
        work_unit: String::new(),
        signature_path: String::new(),
        status_message: String::new(),
    }
}

/// The screen showing a stored profile, with an empty status line.
pub fn form_from_profile(p: &UserProfile) -> (f: ProfileForm)
    ensures
        shows_profile(f, *p),
        f.status_message@ == Seq::<char>::empty(),
{
    ProfileForm {
        name: p.name.clone(),
        ni: p.ni.clone(),
        role: p.role.clone(),
        work_unit: p.work_unit.clone(),
        signature_path: match &p.signature_path {
            Some(s) => s.clone(),
            None => String::new(),
        },
        status_message: String::new(),
    }
}

/// The profile that saving the screen stores.
pub fn profile_from_form(f: &ProfileForm) -> (p: UserProfile)
    ensures
        is_profile_of_form(p, *f),
{
    let signature_path = if f.signature_path.as_str().unicode_len() == 0 {
        None
    } else {
        Some(f.signature_path.clone())
    };
    UserProfile {
        id: PROFILE_ID,
        name: f.name.clone(),
        ni: f.ni.clone(),
        role: f.role.clone(),
        work_unit: f.work_unit.clone(),
        signature_path,
    }
}

/// The status line after a save: success, or the error's text.
pub fn save_status_message(result: &Result<(), String>) -> (m: String)
    ensures
        m@ == save_status_text(*result),
{
    match result {
        Ok(()) => String::from_str("Profil berhasil disimpan."),
        Err(e) => String::from_str("Gagal menyimpan: ").concat(e.as_str()),
    }
}

/// The status line after asking to pick a signature file.
pub fn pick_signature_message() -> (m: String)
    ensures
        m@ == pick_signature_text(),
{
    String::from_str("Pilih file TTD belum tersedia di versi ini.")
}

/// One step of the profile screen: a save click asks to store the profile
/// that the fields make; the end of a save and a click on the signature
/// picker set the status line. The fields never change here.
pub fn handle_event(form: ProfileForm, event: UiEvent) -> (r: (ProfileForm, UiAction))
    ensures
        same_fields(r.0, form),
        match event {
            UiEvent::SaveClicked => r.0.status_message@ == form.status_message@ && (match r.1 {
                UiAction::SaveProfile(p) => is_profile_of_form(p, form),
                UiAction::Nothing => false,
            }),
            UiEvent::SaveFinished(result) => r.0.status_message@ == save_status_text(result)
                && r.1 is Nothing,
            UiEvent::PickSignatureClicked => r.0.status_message@ == pick_signature_text()
                && r.1 is Nothing,
        },
{
    match event {
        UiEvent::SaveClicked => {
            let p = profile_from_form(&form);
            (form, UiAction::SaveProfile(p))
        },
        UiEvent::SaveFinished(result) => {
            let mut form = form;
            form.status_message = save_status_message(&result);
            (form, UiAction::Nothing)
        },
        UiEvent::PickSignatureClicked => {
            let mut form = form;
            form.status_message = pick_signature_message();
            (form, UiAction::Nothing)
        },
    }
}

/// A stored profile, shown on the screen and saved again, is stored with
/// the same texts and signature path under the profile id. (A signature
/// path that is the empty text comes back as no signature.)
pub proof fn lemma_show_then_save(p: UserProfile, f: ProfileForm, q: UserProfile)
    requires
        shows_profile(f, p),
        is_profile_of_form(q, f),
        p.signature_path matches Some(s) ==> s@.len() > 0,
    ensures
        q.id == PROFILE_ID,
        q.name@ == p.name@,
        q.ni@ == p.ni@,
        q.role@ == p.role@,
        q.work_unit@ == p.work_unit@,
        q.signature_path is Some <==> p.signature_path is Some,
        q.signature_path is Some ==> q.signature_path.unwrap()@ == p.signature_path.unwrap()@,
{
}

} // verus!
