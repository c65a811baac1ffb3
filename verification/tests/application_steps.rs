use clean_my_keys::application::{
    elevation_finished, input_group_checked, is_quit_shortcut, Application, Command, Key,
    KeyboardEvent, Message,
};
use clean_my_keys::device::InputDevice;
use clean_my_keys::icon::window_icon;
use clean_my_keys::style::{
    button_look, pick_list_look, ButtonStatus, ColorSlot, PickListStatus, Shade,
};
use clean_my_keys::theme::ThemeId;
use clean_my_keys::view::{Glyph, Panel, LOCKED_COLOR, UNLOCKED_COLOR};

fn keyboard(path: &str) -> InputDevice {
    InputDevice { name: "AT Keyboard".to_string(), path: path.to_string() }
}

fn snapshot(app: &Application) -> (bool, bool, bool, Option<(String, String)>, usize) {
    (
        app.cleaning_enabled,
        app.cleaning_signal,
        app.settings_mode,
        app.input_device.as_ref().map(|d| (d.name.clone(), d.path.clone())),
        app.theme.index(),
    )
}

fn is_nothing(c: &Command) -> bool {
    matches!(c, Command::Nothing)
}

fn press(text: &str, control: bool) -> KeyboardEvent {
    KeyboardEvent::KeyPressed { key: Key::Character(text.to_string()), control }
}

#[test]
fn new_application_is_idle() {
    let app = Application::new(false, ThemeId::ferra());
    assert_eq!(snapshot(&app), (false, false, false, None, ThemeId::ferra().index()));
    assert!(Application::new(true, ThemeId::ferra()).settings_mode);
}

#[test]
fn toggling_settings_twice_restores_the_state() {
    let mut app = Application::new(false, ThemeId::ferra());
    let before = snapshot(&app);
    assert_eq!(app.shown_panel(), Panel::Main);
    assert!(is_nothing(&app.update(Message::ToggleSettings)));
    assert!(app.settings_mode);
    assert_eq!(app.header_glyph(), Glyph::ArrowBack);
    assert_eq!(app.shown_panel(), Panel::Settings);
    assert!(is_nothing(&app.update(Message::ToggleSettings)));
    assert_eq!(snapshot(&app), before);
    assert_eq!(app.header_glyph(), Glyph::Settings);
}

#[test]
fn starting_without_a_keyboard_does_nothing() {
    let mut app = Application::new(false, ThemeId::ferra());
    let before = snapshot(&app);
    assert!(is_nothing(&app.update(Message::ToggleCleaning)));
    assert_eq!(snapshot(&app), before);
    app.update(Message::ChangeInputDevice(InputDevice {
        name: "No keyboard detected".to_string(),
        path: String::new(),
    }));
    assert!(!app.main_view().action_enabled);
    let before = snapshot(&app);
    assert!(is_nothing(&app.update(Message::ToggleCleaning)));
    assert_eq!(snapshot(&app), before);
}

#[test]
fn a_full_start_and_stop() {
    let mut app = Application::new(false, ThemeId::ferra());
    app.update(Message::ChangeInputDevice(keyboard("/dev/input/event3")));
    assert!(app.main_view().action_enabled);
    let path = match app.update(Message::ToggleCleaning) {
        Command::CheckDeviceAccess(p) => p,
        _ => panic!("a picked keyboard must be checked"),
    };
    assert_eq!(path, "/dev/input/event3");
    match app.device_access_checked(path, true) {
        Command::StartKeyboardLock(p) => assert_eq!(p, "/dev/input/event3"),
        _ => panic!("a readable device must be locked"),
    }
    assert!(app.cleaning_signal && !app.cleaning_enabled);
    assert!(is_nothing(&app.keyboard_lock_started(Ok(()))));
    assert!(app.cleaning_enabled && app.cleaning_signal);

    let view = app.main_view();
    assert_eq!(view.action_label, "Stop");
    assert_eq!(view.status_glyph, Glyph::KeyboardLock);
    assert_eq!(view.status_color, LOCKED_COLOR);
    assert!(view.description.starts_with("Keyboard input is now disabled."));

    app.update(Message::ChangeInputDevice(keyboard("/dev/input/event9")));
    assert_eq!(app.input_device.as_ref().unwrap().path, "/dev/input/event3");

    assert!(is_nothing(&app.update(Message::ToggleCleaning)));
    assert!(!app.cleaning_enabled && !app.cleaning_signal);
    let view = app.main_view();
    assert_eq!(view.action_label, "Start");
    assert_eq!(view.status_glyph, Glyph::Keyboard);
    assert_eq!(view.status_color, UNLOCKED_COLOR);
}

#[test]
fn start_then_stop_restores_the_state() {
    let mut app = Application::new(true, ThemeId::from_index(5).unwrap());
    app.update(Message::ChangeInputDevice(keyboard("/dev/input/event7")));
    let before = snapshot(&app);
    let path = match app.update(Message::ToggleCleaning) {
        Command::CheckDeviceAccess(p) => p,
        _ => panic!("a picked keyboard must be checked"),
    };
    app.device_access_checked(path, true);
    app.keyboard_lock_started(Ok(()));
    assert!(app.cleaning_enabled);
    assert!(is_nothing(&app.update(Message::ToggleCleaning)));
    assert_eq!(snapshot(&app), before);
}

#[test]
fn run_flag_follows_cleaning_between_actions() {
    let mut app = Application::new(false, ThemeId::ferra());
    let messages = vec![
        Message::ToggleCleaning,
        Message::ChangeInputDevice(keyboard("/dev/input/event1")),
        Message::ToggleSettings,
        Message::ChangeTheme(ThemeId::from_index(1).unwrap()),
        Message::KeyboardEvent(press("x", false)),
        Message::ToggleCleaning,
    ];
    for message in messages {
        app.update(message);
        assert_eq!(app.cleaning_signal, app.cleaning_enabled);
    }
}

#[test]
fn failed_lock_lowers_the_flag_and_logs() {
    let mut app = Application::new(false, ThemeId::ferra());
    app.update(Message::ChangeInputDevice(keyboard("/dev/input/event3")));
    app.device_access_checked("/dev/input/event3".to_string(), true);
    match app.keyboard_lock_started(Err("Could not lock keyboard: busy".to_string())) {
        Command::Log(line) => assert_eq!(line, "Could not lock keyboard: busy"),
        _ => panic!("a failed lock must be logged"),
    }
    assert!(!app.cleaning_enabled && !app.cleaning_signal);
}

#[test]
fn unreadable_device_leads_to_group_check_then_elevation() {
    let mut app = Application::new(false, ThemeId::ferra());
    app.update(Message::ChangeInputDevice(keyboard("/dev/input/event3")));
    let before = snapshot(&app);
    assert!(matches!(
        app.device_access_checked("/dev/input/event3".to_string(), false),
        Command::CheckInputGroup
    ));
    assert_eq!(snapshot(&app), before);
    assert!(matches!(input_group_checked(false), Command::RequestElevation));
    match input_group_checked(true) {
        Command::Log(line) => assert_eq!(
            line,
            "User is in group 'input' but cannot open device. Check device permissions, re-login, or udev rules."
        ),
        _ => panic!("a group member must be told to check permissions"),
    }
    assert!(is_nothing(&elevation_finished(Ok(()))));
    match elevation_finished(Err("pkexec not found".to_string())) {
        Command::Log(line) => assert_eq!(line, "Failed to escalate privileges: pkexec not found"),
        _ => panic!("a failed escalation must be logged"),
    }
}

#[test]
fn changing_theme_saves_it() {
    let mut app = Application::new(false, ThemeId::ferra());
    let dracula = ThemeId::from_index(2).unwrap();
    match app.update(Message::ChangeTheme(dracula)) {
        Command::SaveTheme(t) => assert_eq!(t, dracula),
        _ => panic!("a theme change must be saved"),
    }
    assert_eq!(app.theme, dracula);
}

#[test]
fn control_q_quits() {
    assert!(is_quit_shortcut(&press("q", true)));
    assert!(is_quit_shortcut(&press("Q", true)));
    assert!(!is_quit_shortcut(&press("q", false)));
    assert!(!is_quit_shortcut(&press("w", true)));
    assert!(!is_quit_shortcut(&press("qq", true)));
    assert!(!is_quit_shortcut(&KeyboardEvent::KeyPressed { key: Key::Other, control: true }));
    assert!(!is_quit_shortcut(&KeyboardEvent::Other));
    let mut app = Application::new(false, ThemeId::ferra());
    let before = snapshot(&app);
    assert!(matches!(app.update(Message::KeyboardEvent(press("q", true))), Command::Exit));
    assert!(is_nothing(&app.update(Message::KeyboardEvent(press("a", true)))));
    assert_eq!(snapshot(&app), before);
}

#[test]
fn button_colours_per_status() {
    let plain = |slot| Shade { slot, alpha_percent: None };
    let active = button_look(ButtonStatus::Active);
    assert_eq!(active.border, plain(ColorSlot::SurfaceBorder));
    assert_eq!(active.background, plain(ColorSlot::SurfaceBg));
    assert_eq!(active.text, plain(ColorSlot::Text));
    let hovered = button_look(ButtonStatus::Hovered);
    assert_eq!(hovered.border, plain(ColorSlot::SurfaceBorderHover));
    assert_eq!(hovered.background, plain(ColorSlot::SurfaceHoverBg));
    let pressed = button_look(ButtonStatus::Pressed);
    assert_eq!(pressed.border, plain(ColorSlot::SurfaceBorderHover));
    assert_eq!(pressed.background, plain(ColorSlot::SurfacePressedBg));
    let disabled = button_look(ButtonStatus::Disabled);
    assert_eq!(disabled.border, Shade { slot: ColorSlot::SurfaceBorder, alpha_percent: Some(35) });
    assert_eq!(disabled.background, Shade { slot: ColorSlot::SurfaceBg, alpha_percent: Some(45) });
    assert_eq!(disabled.text, Shade { slot: ColorSlot::TextMuted, alpha_percent: Some(55) });
}

#[test]
fn pick_list_colours_per_status() {
    let hovered = pick_list_look(PickListStatus::Hovered);
    assert_eq!(hovered.border, ColorSlot::SurfaceBorderHover);
    assert_eq!(hovered.background, ColorSlot::SurfaceHoverBg);
    for status in [
        PickListStatus::Active,
        PickListStatus::Opened { is_hovered: true },
        PickListStatus::Opened { is_hovered: false },
    ] {
        let look = pick_list_look(status);
        assert_eq!(look.border, ColorSlot::SurfaceBorder);
        assert_eq!(look.background, ColorSlot::SurfaceBg);
    }
    for status in [PickListStatus::Active, PickListStatus::Hovered] {
        let look = pick_list_look(status);
        assert_eq!(look.text, ColorSlot::Text);
        assert_eq!(look.placeholder, ColorSlot::TextMuted);
        assert_eq!(look.handle, ColorSlot::Text);
    }
}

#[test]
fn window_icon_decodes_png_pixels() {
    let mut img = image::RgbaImage::new(2, 1);
    img.put_pixel(0, 0, image::Rgba([1, 2, 3, 4]));
    img.put_pixel(1, 0, image::Rgba([5, 6, 7, 8]));
    let mut png = std::io::Cursor::new(Vec::new());
    img.write_to(&mut png, image::ImageFormat::Png).unwrap();
    let icon = window_icon(png.get_ref()).expect("a valid PNG decodes");
    assert_eq!((icon.width, icon.height), (2, 1));
    assert_eq!(icon.rgba, vec![1, 2, 3, 4, 5, 6, 7, 8]);
    assert!(window_icon(b"not an image").is_none());
}
