use clean_my_keys::device::{
    accessible_input_devices, discover_keyboards, is_event_node, DeviceEntry, NodeAccess,
    OpenedDevice,
};
use clean_my_keys::lock::{
    after_fetch, lock_failure_message, next_grab_step, FetchOutcome, GrabOutcome, GrabStep,
    IoFailure, LockStage, GRAB_ATTEMPTS,
};
use clean_my_keys::lock::hook_swallows_key;
use clean_my_keys::permission::{
    elevation_request, ensure_input_permissions, startup_error_after_elevation, user_in_input_group, PermissionCheck,
    StartupError,
};

fn entry(path: &str, file_name: Option<&str>, opened: Option<(Option<&str>, bool)>) -> DeviceEntry {
    DeviceEntry {
        path: path.to_string(),
        file_name: file_name.map(|f| f.to_string()),
        opened: opened.map(|(name, has_key_a)| OpenedDevice {
            name: name.map(|n| n.to_string()),
            has_key_a,
        }),
    }
}

fn names_and_paths(entries: Vec<DeviceEntry>) -> Vec<(String, String)> {
    discover_keyboards(&entries)
        .into_iter()
        .map(|d| (d.name, d.path))
        .collect()
}

#[test]
fn event_node_names() {
    assert!(is_event_node("event0"));
    assert!(is_event_node("event12"));
    assert!(is_event_node("event"));
    assert!(!is_event_node("mouse0"));
    assert!(!is_event_node("even"));
    assert!(!is_event_node("Event3"));
    assert!(!is_event_node(""));
}

#[test]
fn keyboards_are_event_nodes_with_the_a_key() {
    let entries = vec![
        entry("/dev/input/event0", Some("event0"), Some((Some("AT Keyboard"), true))),
        entry("/dev/input/event1", Some("event1"), Some((Some("Mouse"), false))),
        entry("/dev/input/mice", Some("mice"), Some((Some("Odd"), true))),
        entry("/dev/input/event2", Some("event2"), None),
        entry("/dev/input/event3", Some("event3"), Some((None, true))),
        entry("/dev/input/..", None, Some((Some("Nothing"), true))),
    ];
    assert_eq!(
        names_and_paths(entries),
        vec![
            ("AT Keyboard".to_string(), "/dev/input/event0".to_string()),
            ("Unknown keyboard".to_string(), "/dev/input/event3".to_string()),
        ]
    );
}

#[test]
fn no_keyboard_gives_the_placeholder() {
    let placeholder = vec![("No keyboard detected".to_string(), String::new())];
    assert_eq!(names_and_paths(Vec::new()), placeholder);
    let entries = vec![entry("/dev/input/event1", Some("event1"), Some((Some("Mouse"), false)))];
    assert_eq!(names_and_paths(entries), placeholder);
}

#[test]
fn accessible_nodes_are_readable_event_nodes() {
    let access = |path: &str, name: Option<&str>, accessible: bool| NodeAccess {
        path: path.to_string(),
        file_name: name.map(|n| n.to_string()),
        accessible,
    };
    let entries = vec![
        access("/dev/input/event0", Some("event0"), true),
        access("/dev/input/event1", Some("event1"), false),
        access("/dev/input/mice", Some("mice"), true),
        access("/dev/input/event4", Some("event4"), true),
    ];
    assert_eq!(
        accessible_input_devices(&entries),
        vec!["/dev/input/event0".to_string(), "/dev/input/event4".to_string()]
    );
    assert!(accessible_input_devices(&Vec::new()).is_empty());
}

#[test]
fn input_group_membership_from_id_output() {
    assert!(user_in_input_group(b"alice wheel input audio\n"));
    assert!(user_in_input_group(b"input"));
    assert!(!user_in_input_group(b"alice inputs wheel\n"));
    assert!(!user_in_input_group(b""));
    assert!(!user_in_input_group(&[0xff, b' ', b'i', b'n', b'p', b'u', b't']));
}

#[test]
fn elevation_only_without_any_readable_device() {
    assert_eq!(ensure_input_permissions(&Vec::new()), PermissionCheck::RequestElevation);
    assert_eq!(
        ensure_input_permissions(&vec!["/dev/input/event0".to_string()]),
        PermissionCheck::AlreadyAccessible
    );
}

fn failure(code: Option<i32>, message: &str) -> GrabOutcome {
    GrabOutcome::Failed(IoFailure { os_code: code, message: message.to_string() })
}

#[test]
fn busy_device_is_retried_up_to_the_limit() {
    assert!(matches!(next_grab_step(1, GrabOutcome::Grabbed), GrabStep::Locked));
    for attempt in 1..GRAB_ATTEMPTS {
        assert!(matches!(next_grab_step(attempt, failure(Some(16), "busy")), GrabStep::PauseThenRetry));
    }
    match next_grab_step(GRAB_ATTEMPTS, failure(Some(16), "Device or resource busy")) {
        GrabStep::PauseThenFail(m) => {
            assert_eq!(m, "Could not lock keyboard: Device or resource busy");
        }
        _ => panic!("the last busy attempt must give up"),
    }
}

#[test]
fn other_grab_errors_fail_at_once() {
    match next_grab_step(1, failure(Some(13), "Permission denied")) {
        GrabStep::Fail(m) => assert_eq!(m, "Could not lock keyboard: Permission denied"),
        _ => panic!("a non-busy error must fail at once"),
    }
    match next_grab_step(4, failure(None, "odd")) {
        GrabStep::Fail(m) => assert_eq!(m, "Could not lock keyboard: odd"),
        _ => panic!("an error without code must fail at once"),
    }
}

#[test]
fn lock_failure_messages() {
    assert_eq!(lock_failure_message(LockStage::Open, "No such file"), "Could not open device: No such file");
    assert_eq!(lock_failure_message(LockStage::Configure, "x"), "Could not configure device: x");
    assert_eq!(lock_failure_message(LockStage::Grab, ""), "Could not lock keyboard: ");
}

#[test]
fn event_pump_stops_only_on_read_errors() {
    assert!(matches!(after_fetch(FetchOutcome::Events), clean_my_keys::lock::PumpStep::PauseThenContinue));
    assert!(matches!(after_fetch(FetchOutcome::NothingPending), clean_my_keys::lock::PumpStep::PauseThenContinue));
    match after_fetch(FetchOutcome::Failed("No such device".to_string())) {
        clean_my_keys::lock::PumpStep::Stop(m) => {
            assert_eq!(m, "Failed to read keyboard events: No such device")
        }
        _ => panic!("a read error must stop the pump"),
    }
}

#[test]
fn startup_fails_when_elevation_comes_back() {
    match startup_error_after_elevation(Err("pkexec: not authorized".to_string())) {
        StartupError::Escalation(e) => assert_eq!(e, "pkexec: not authorized"),
        StartupError::NoAccessibleInputDevices => panic!("the escalation error must be kept"),
    }
    let error = startup_error_after_elevation(Ok(()));
    assert!(matches!(error, StartupError::NoAccessibleInputDevices));
    assert_eq!(
        error.describe(),
        "No accessible input devices found: the application likely lacks permission to read /dev/input"
    );
    assert_eq!(StartupError::Escalation("x".to_string()).describe(), "x");
}

#[test]
fn keyboard_hook_swallows_only_while_locked() {
    assert!(hook_swallows_key(0, true));
    assert!(hook_swallows_key(3, true));
    assert!(!hook_swallows_key(-1, true));
    assert!(!hook_swallows_key(0, false));
}

#[test]
fn elevation_goes_through_pkexec_keeping_the_session() {
    let request = elevation_request();
    assert_eq!(request.wrapper, "pkexec");
    assert_eq!(
        request.kept_env_prefixes,
        vec!["DISPLAY", "WAYLAND_", "XAUTHORITY", "DBUS_SESSION_BUS_ADDRESS", "XDG_RUNTIME_DIR"]
    );
}
