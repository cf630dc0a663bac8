//! The application manifest that every registration with the TV carries.

use vstd::prelude::*;

use crate::text::owned;

verus! {

/// The manifest of the tool as a webOS client application.
#[derive(Debug)]
pub struct Manifest {
    /// `manifestVersion`
    pub manifest_version: u64,
    /// `appVersion`
    pub app_version: String,
    /// `appId`
    pub app_id: String,
    /// `vendorId`
    pub vendor_id: String,
    /// `permissions`
    pub permissions: Vec<String>,
    /// `localizedAppNames`, as (locale, name) pairs; the empty locale is the default.
    pub app_names: Vec<(String, String)>,
    /// `localizedVendorNames`, as (locale, name) pairs.
    pub vendor_names: Vec<(String, String)>,
}

/// The permissions the tool asks the TV for.
pub open spec fn manifest_permissions() -> Seq<Seq<char>> {
    seq![
        "LAUNCH"@,
        "LAUNCH_WEBAPP"@,
        "APP_TO_APP"@,
        "CONTROL_AUDIO"@,
        "CONTROL_DISPLAY"@,
        "CONTROL_INPUT_JOYSTICK"@,
        "CONTROL_INPUT_MEDIA_PLAYBACK"@,
        "CONTROL_INPUT_TEXT"@,
        "CONTROL_INPUT_TV"@,
        "CONTROL_MOUSE_AND_KEYBOARD"@,
        "CONTROL_POWER"@,
        "READ_APP_STATUS"@,
        "READ_CURRENT_CHANNEL"@,
        "READ_INPUT_DEVICE_LIST"@,
        "READ_INSTALLED_APPS"@,
        "READ_LGE_SDX"@,
        "READ_LGE_TV_INPUT_EVENTS"@,
        "READ_NOTIFICATIONS"@,
        "READ_POWER_STATE"@,
        "READ_RUNNING_APPS"@,
        "READ_TV_CHANNEL_LIST"@,
        "READ_TV_CURRENT_TIME"@,
        "SEARCH"@,
        "WRITE_NOTIFICATION_TOAST"@,
    ]
}

/// The application's names by locale.
pub open spec fn manifest_app_names() -> Seq<(Seq<char>, Seq<char>)> {
    seq![(""@, "lgtvctl"@), ("en-US"@, "lgtvctl"@), ("ru-RU"@, "lgtvctl"@)]
}

/// The vendor's names by locale.
pub open spec fn manifest_vendor_names() -> Seq<(Seq<char>, Seq<char>)> {
    seq![(""@, "Fancier Tech"@)]
}

/// The views of a list of strings.
pub open spec fn texts(v: Seq<String>) -> Seq<Seq<char>> {
    v.map_values(|s: String| s@)
}

/// The views of a list of string pairs.
pub open spec fn text_pairs(v: Seq<(String, String)>) -> Seq<(Seq<char>, Seq<char>)> {
    v.map_values(|p: (String, String)| (p.0@, p.1@))
}

fn push_text(v: &mut Vec<String>, s: &str)
    ensures
        texts(final(v)@) == texts(old(v)@).push(s@),
{
    let ghost before = v@;
    v.push(owned(s));
    assert(texts(v@) =~= texts(before).push(s@));
}

fn push_pair(v: &mut Vec<(String, String)>, a: &str, b: &str)
    ensures
        text_pairs(final(v)@) == text_pairs(old(v)@).push((a@, b@)),
{
    let ghost before = v@;
    v.push((owned(a), owned(b)));
    assert(text_pairs(v@) =~= text_pairs(before).push((a@, b@)));
}

/// The manifest sent with every registration.
pub fn webos_manifest() -> (m: Manifest)
    ensures
        m.manifest_version == 1,
        m.app_version@ == "0.5.0"@,
        m.app_id@ == "com.fanciertech.lgtvctl"@,
        m.vendor_id@ == "com.fanciertech"@,
        texts(m.permissions@) == manifest_permissions(),
        text_pairs(m.app_names@) == manifest_app_names(),
        text_pairs(m.vendor_names@) == manifest_vendor_names(),
{
    let mut permissions: Vec<String> = Vec::new();
    assert(texts(permissions@) =~= Seq::<Seq<char>>::empty());
    push_text(&mut permissions, "LAUNCH");
    push_text(&mut permissions, "LAUNCH_WEBAPP");
    push_text(&mut permissions, "APP_TO_APP");
    push_text(&mut permissions, "CONTROL_AUDIO");
    push_text(&mut permissions, "CONTROL_DISPLAY");
    push_text(&mut permissions, "CONTROL_INPUT_JOYSTICK");
    push_text(&mut permissions, "CONTROL_INPUT_MEDIA_PLAYBACK");
    push_text(&mut permissions, "CONTROL_INPUT_TEXT");
    push_text(&mut permissions, "CONTROL_INPUT_TV");
    push_text(&mut permissions, "CONTROL_MOUSE_AND_KEYBOARD");
    push_text(&mut permissions, "CONTROL_POWER");
    push_text(&mut permissions, "READ_APP_STATUS");
    push_text(&mut permissions, "READ_CURRENT_CHANNEL");
    push_text(&mut permissions, "READ_INPUT_DEVICE_LIST");
    push_text(&mut permissions, "READ_INSTALLED_APPS");
    push_text(&mut permissions, "READ_LGE_SDX");
    push_text(&mut permissions, "READ_LGE_TV_INPUT_EVENTS");
    push_text(&mut permissions, "READ_NOTIFICATIONS");
    push_text(&mut permissions, "READ_POWER_STATE");
    push_text(&mut permissions, "READ_RUNNING_APPS");
    push_text(&mut permissions, "READ_TV_CHANNEL_LIST");
    push_text(&mut permissions, "READ_TV_CURRENT_TIME");
    push_text(&mut permissions, "SEARCH");
    push_text(&mut permissions, "WRITE_NOTIFICATION_TOAST");
    assert(texts(permissions@) =~= manifest_permissions());

    let mut app_names: Vec<(String, String)> = Vec::new();
    assert(text_pairs(app_names@) =~= Seq::<(Seq<char>, Seq<char>)>::empty());
    push_pair(&mut app_names, "", "lgtvctl");
    push_pair(&mut app_names, "en-US", "lgtvctl");
    push_pair(&mut app_names, "ru-RU", "lgtvctl");
    assert(text_pairs(app_names@) =~= manifest_app_names());

    let mut vendor_names: Vec<(String, String)> = Vec::new();
    assert(text_pairs(vendor_names@) =~= Seq::<(Seq<char>, Seq<char>)>::empty());
    push_pair(&mut vendor_names, "", "Fancier Tech");
    assert(text_pairs(vendor_names@) =~= manifest_vendor_names());

    Manifest {
        manifest_version: 1,
        app_version: owned("0.5.0"),
        app_id: owned("com.fanciertech.lgtvctl"),
        vendor_id: owned("com.fanciertech"),
        permissions,
        app_names,
        vendor_names,
    }
}

} // verus!
