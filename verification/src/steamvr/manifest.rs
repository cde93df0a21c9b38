//! The OpenVR application manifest (`.vrmanifest`) that lets SteamVR start
//! the tool as a dashboard overlay.

use vstd::prelude::*;
use crate::json::{json_string_literal, string_literal};

verus! {

/// The application key; it must equal the key of the dashboard overlay so
/// that SteamVR ties the overlay to the registered application.
pub const APP_KEY: &'static str = "cympfh.vrc_companion";

/// The application's display name.
pub const APP_NAME: &'static str = "VRC Companion";

/// The manifest's file name in the configuration directory.
pub const MANIFEST_FILE_NAME: &'static str = "vrc-companion.vrmanifest";

/// The manifest of one dashboard-overlay application, written as compact JSON
/// with the keys of each object in sorted order:
/// `{"applications":[{"app_key":..,"binary_path_windows":..,
/// "is_dashboard_overlay":true,"launch_type":"binary",
/// "strings":{"en_us":{"name":..}}}],"source":"custom"}`.
pub open spec fn manifest_json(app_key: Seq<char>, name: Seq<char>, exe_path: Seq<char>) -> Seq<
    char,
> {
    "{\"applications\":[{\"app_key\":"@ + json_string_literal(app_key)
        + ",\"binary_path_windows\":"@ + json_string_literal(exe_path)
        + ",\"is_dashboard_overlay\":true,\"launch_type\":"@ + json_string_literal("binary"@)
        + ",\"strings\":{\"en_us\":{\"name\":"@ + json_string_literal(name) + "}}}],\"source\":"@
        + json_string_literal("custom"@) + "}"@
}

/// The manifest for the application `app_key`, shown as `name`, whose
/// Windows executable is at `exe_path`.
pub fn build_manifest_json(app_key: &str, name: &str, exe_path: &str) -> (r: String)
    ensures
        r@ == manifest_json(app_key@, name@, exe_path@),
{
    let mut r = "{\"applications\":[{\"app_key\":".to_string();
    let key = string_literal(app_key);
    r.append(key.as_str());
    r.append(",\"binary_path_windows\":");
    let path = string_literal(exe_path);
    r.append(path.as_str());
    r.append(",\"is_dashboard_overlay\":true,\"launch_type\":");
    let launch = string_literal("binary");
    r.append(launch.as_str());
    r.append(",\"strings\":{\"en_us\":{\"name\":");
    let display = string_literal(name);
    r.append(display.as_str());
    r.append("}}}],\"source\":");
    let source = string_literal("custom");
    r.append(source.as_str());
    r.append("}");
    r
}

} // verus!
