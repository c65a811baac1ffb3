//! Whether the user may read input devices, and what to do when not.

use vstd::prelude::*;
use vstd::utf8::{decode_utf8, valid_utf8};
use crate::text::{contains_word, decode_utf8_bytes, has_word};

verus! {

/// The group whose members may read `/dev/input/` devices.
pub open spec fn input_group_name() -> Seq<char> {
    "input"@
}

/// Whether the output of `id -nG` (the user's group names, separated by
/// whitespace) names the `input` group. Output that is not valid UTF-8
/// names no group.
pub fn user_in_input_group(id_output: &[u8]) -> (member: bool)
    ensures
        member == (valid_utf8(id_output@) && has_word(decode_utf8(id_output@), input_group_name())),
{
    match decode_utf8_bytes(id_output) {
        Some(groups) => contains_word(groups.as_str(), "input"),
        None => false,
    }
}

/// What to do about input permissions at start-up.
#[derive(Clone, Copy, Debug, PartialEq, Eq, Structural)]
pub enum PermissionCheck {
    /// Some input device can already be read: nothing to do.
    AlreadyAccessible,
    /// No input device can be read: restart with raised privileges.
    RequestElevation,
}

/// Given the event nodes the user may open, decides whether privileges must
/// be raised: exactly when there is none.
pub fn ensure_input_permissions(accessible: &Vec<String>) -> (check: PermissionCheck)
    ensures
        check == (if accessible@.len() > 0 {
            PermissionCheck::AlreadyAccessible
        } else {
            PermissionCheck::RequestElevation
        }),
{
    if accessible.len() > 0 {
        PermissionCheck::AlreadyAccessible
    } else {
        PermissionCheck::RequestElevation
    }
}

/// How privileges are raised: the program that restarts this one with
/// raised privileges, and the environment variables (by name prefix) that
/// the restarted program keeps.
pub struct ElevationRequest {
    pub wrapper: &'static str,
    pub kept_env_prefixes: Vec<&'static str>,
}

/// The environment name prefixes kept across an elevated restart: those the
/// window needs to reach the display and session bus.
pub open spec fn kept_env_prefixes() -> Seq<Seq<char>> {
    seq![
        "DISPLAY"@,
        "WAYLAND_"@,
        "XAUTHORITY"@,
        "DBUS_SESSION_BUS_ADDRESS"@,
        "XDG_RUNTIME_DIR"@,
    ]
}

/// The elevation used at start-up and when a keyboard cannot be opened:
/// restart through `pkexec`, keeping the display and session environment.
pub fn elevation_request() -> (request: ElevationRequest)
    ensures
        request.wrapper@ == "pkexec"@,
        request.kept_env_prefixes@.map_values(|p: &str| p@) == kept_env_prefixes(),
{
    let kept: Vec<&'static str> = vec![
        "DISPLAY",
        "WAYLAND_",
        "XAUTHORITY",
        "DBUS_SESSION_BUS_ADDRESS",
        "XDG_RUNTIME_DIR",
    ];
    assert(kept@.map_values(|p: &str| p@) =~= kept_env_prefixes());
    ElevationRequest { wrapper: "pkexec", kept_env_prefixes: kept }
}

/// Why start-up cannot go on once elevation was requested and the process
/// was not replaced by its elevated copy.
pub enum StartupError {
    /// Raising privileges failed with this error text.
    Escalation(String),
    /// Raising privileges returned without restarting: no input device can be
    /// read, so the application likely lacks the permissions it needs.
    NoAccessibleInputDevices,
}

/// The text that reports that no input device can be read.
pub open spec fn no_accessible_devices_text() -> Seq<char> {
    "No accessible input devices found: the application likely lacks permission to read /dev/input"@
}

/// The start-up error once elevation was requested and the call came back
/// (an elevated restart never comes back): the escalation's own error, or,
/// when it reported success, that no input device can be read.
pub fn startup_error_after_elevation(escalation: Result<(), String>) -> (error: StartupError)
    ensures
        match escalation {
            Ok(()) => error is NoAccessibleInputDevices,
            Err(e) => error matches StartupError::Escalation(m) && m@ == e@,
        },
{
    match escalation {
        Ok(()) => StartupError::NoAccessibleInputDevices,
        Err(e) => StartupError::Escalation(e),
    }
}

impl StartupError {
    /// The error's text: the escalation's own text, or the report that no
    /// input device can be read.
    pub fn describe(&self) -> (text: String)
        ensures
            match self {
                StartupError::Escalation(e) => text@ == e@,
                StartupError::NoAccessibleInputDevices => text@ == no_accessible_devices_text(),
            },
    {
        match self {
            StartupError::Escalation(e) => e.clone(),
            StartupError::NoAccessibleInputDevices => "No accessible input devices found: the application likely lacks permission to read /dev/input".to_owned(),
        }
    }
}

} // verus!
