//! The application's state and how it reacts to each user action.
//!
//! Every reaction is a step from the current state and an event to the next
//! state and one command. The commands that need the outside world (checking
//! a device, starting the lock, asking for privileges, saving the theme,
//! quitting) are carried out by the caller, which reports their outcome back
//! through the matching `*_checked`, `*_started` or `*_finished` step.

use vstd::prelude::*;
use vstd::string::*;
use crate::device::InputDevice;
use crate::theme::ThemeId;

verus! {

/// A key as the keyboard reports it.
pub enum Key {
    /// A key that produces text, with that text.
    Character(String),
    /// Any other key (named keys, unidentified keys).
    Other,
}

/// A keyboard event delivered to the application window.
pub enum KeyboardEvent {
    /// A key was pressed; `control` tells whether a Control key was held.
    KeyPressed { key: Key, control: bool },
    /// Any other keyboard event (releases, modifier changes).
    Other,
}

/// The user actions the application reacts to.
pub enum Message {
    ToggleSettings,
    ToggleCleaning,
    ChangeInputDevice(InputDevice),
    ChangeTheme(ThemeId),
    KeyboardEvent(KeyboardEvent),
}

/// What the caller must do after a step.
pub enum Command {
    /// Nothing.
    Nothing,
    /// Check whether the device node at this path can be opened, and report
    /// through `device_access_checked`.
    CheckDeviceAccess(String),
    /// Lock the keyboard at this path, and report through
    /// `keyboard_lock_started`.
    StartKeyboardLock(String),
    /// Check whether the user is in the `input` group, and report through
    /// `input_group_checked`.
    CheckInputGroup,
    /// Restart with raised privileges, and report through
    /// `elevation_finished`.
    RequestElevation,
    /// Write this line to the log.
    Log(String),
    /// Store this theme in the configuration file.
    SaveTheme(ThemeId),
    /// Close the application.
    Exit,
}

/// A command, with its text as characters.
pub enum CommandView {
    Nothing,
    CheckDeviceAccess(Seq<char>),
    StartKeyboardLock(Seq<char>),
    CheckInputGroup,
    RequestElevation,
    Log(Seq<char>),
    SaveTheme(ThemeId),
    Exit,
}

impl View for Command {
    type V = CommandView;

    open spec fn view(&self) -> CommandView {
        match self {
            Command::Nothing => CommandView::Nothing,
            Command::CheckDeviceAccess(p) => CommandView::CheckDeviceAccess(p@),
            Command::StartKeyboardLock(p) => CommandView::StartKeyboardLock(p@),
            Command::CheckInputGroup => CommandView::CheckInputGroup,
            Command::RequestElevation => CommandView::RequestElevation,
            Command::Log(m) => CommandView::Log(m@),
            Command::SaveTheme(t) => CommandView::SaveTheme(*t),
            Command::Exit => CommandView::Exit,
        }
    }
}

/// The application's state.
pub struct Application {
    /// The selected keyboard is locked.
    pub cleaning_enabled: bool,
    /// The keyboard the user picked, if any.
    pub input_device: Option<InputDevice>,
    /// The value of the flag that keeps the lock's event pump running.
    pub cleaning_signal: bool,
    /// The colour theme in use.
    pub theme: ThemeId,
    /// The settings panel is shown instead of the main panel.
    pub settings_mode: bool,
}

/// Ctrl+Q (or Ctrl+Shift+Q) was pressed.
pub open spec fn is_quit_event(event: KeyboardEvent) -> bool {
    match event {
        KeyboardEvent::KeyPressed { key, control } => control && match key {
            Key::Character(c) => c@ == seq!['q'] || c@ == seq!['Q'],
            Key::Other => false,
        },
        KeyboardEvent::Other => false,
    }
}

/// Whether `event` is the quit shortcut, Ctrl+Q.
pub fn is_quit_shortcut(event: &KeyboardEvent) -> (quit: bool)
    ensures
        quit == is_quit_event(*event),
{
    match event {
        KeyboardEvent::KeyPressed { key, control } => {
            if !*control {
                return false;
            }
            match key {
                Key::Character(c) => {
                    let s = c.as_str();
                    if s.unicode_len() != 1 {
                        return false;
                    }
                    let ch = s.get_char(0);
                    if ch == 'q' || ch == 'Q' {
                        assert(c@ =~= seq![ch]);
                        true
                    } else {
                        assert(c@ != seq!['q'] && c@ != seq!['Q']) by {
                            assert(c@[0] == ch);
                        }
                        false
                    }
                },
                Key::Other => false,
            }
        },
        KeyboardEvent::Other => false,
    }
}

/// How the state changes, and which command follows, when `message` arrives.
pub open spec fn spec_update(s: Application, message: Message) -> (Application, CommandView) {
    match message {
        Message::ToggleSettings => (
            Application { settings_mode: !s.settings_mode, ..s },
            CommandView::Nothing,
        ),
        Message::ToggleCleaning => if s.cleaning_enabled {
            (
                Application { cleaning_signal: false, cleaning_enabled: false, ..s },
                CommandView::Nothing,
            )
        } else {
            match s.input_device {
                Some(d) => if d.path@.len() == 0 {
                    (s, CommandView::Nothing)
                } else {
                    (s, CommandView::CheckDeviceAccess(d.path@))
                },
                None => (s, CommandView::Nothing),
            }
        },
        Message::ChangeInputDevice(d) => if s.cleaning_enabled {
            (s, CommandView::Nothing)
        } else {
            (Application { input_device: Some(d), ..s }, CommandView::Nothing)
        },
        Message::ChangeTheme(t) => (Application { theme: t, ..s }, CommandView::SaveTheme(t)),
        Message::KeyboardEvent(e) => (
            s,
            if is_quit_event(e) {
                CommandView::Exit
            } else {
                CommandView::Nothing
            },
        ),
    }
}

/// The step after the device at `path` was found readable (or not).
pub open spec fn spec_device_access_checked(s: Application, path: Seq<char>, accessible: bool) -> (
    Application,
    CommandView,
) {
    if accessible {
        (Application { cleaning_signal: true, ..s }, CommandView::StartKeyboardLock(path))
    } else {
        (s, CommandView::CheckInputGroup)
    }
}

/// The step after starting the keyboard lock succeeded or failed with an
/// error text.
pub open spec fn spec_keyboard_lock_started(s: Application, result: Result<(), Seq<char>>) -> (
    Application,
    CommandView,
) {
    match result {
        Ok(()) => (Application { cleaning_enabled: true, ..s }, CommandView::Nothing),
        Err(e) => (Application { cleaning_signal: false, ..s }, CommandView::Log(e)),
    }
}

/// The log line for a user who is in the `input` group yet cannot open the
/// device.
pub open spec fn in_group_without_access_note() -> Seq<char> {
    "User is in group 'input' but cannot open device. Check device permissions, re-login, or udev rules."@
}

/// The text that starts the log line for a failed privilege escalation.
pub open spec fn escalation_failure_prefix() -> Seq<char> {
    "Failed to escalate privileges: "@
}

/// The command after checking whether the user is in the `input` group.
pub open spec fn spec_input_group_checked(in_group: bool) -> CommandView {
    if in_group {
        CommandView::Log(in_group_without_access_note())
    } else {
        CommandView::RequestElevation
    }
}

/// The command after a privilege escalation finished or failed.
pub open spec fn spec_elevation_finished(result: Result<(), Seq<char>>) -> CommandView {
    match result {
        Ok(()) => CommandView::Nothing,
        Err(e) => CommandView::Log(escalation_failure_prefix() + e),
    }
}

/// The text of an outcome, as characters.
pub open spec fn result_view(result: Result<(), String>) -> Result<(), Seq<char>> {
    match result {
        Ok(()) => Ok(()),
        Err(e) => Err(e@),
    }
}

impl Application {
    /// A fresh application: nothing locked, no keyboard picked, the given
    /// theme and panel.
    pub fn new(settings_mode: bool, theme: ThemeId) -> (app: Application)
        ensures
            app == (Application {
                cleaning_enabled: false,
                input_device: None,
                cleaning_signal: false,
                theme,
                settings_mode,
            }),
    {
        Application {
            cleaning_enabled: false,
            input_device: None,
            cleaning_signal: false,
            theme,
            settings_mode,
        }
    }

    /// Reacts to a user action.
    pub fn update(&mut self, message: Message) -> (command: Command)
        ensures
            (*final(self), command@) == spec_update(*old(self), message),
    {
        match message {
            Message::ToggleSettings => {
                self.settings_mode = !self.settings_mode;
                Command::Nothing
            },
            Message::ToggleCleaning => {
                if self.cleaning_enabled {
                    self.cleaning_signal = false;
                    self.cleaning_enabled = false;
                    Command::Nothing
                } else {
                    match &self.input_device {
                        Some(d) => {
                            if d.path.as_str().unicode_len() == 0 {
                                Command::Nothing
                            } else {
                                Command::CheckDeviceAccess(d.path.clone())
                            }
                        },
                        None => Command::Nothing,
                    }
                }
            },
            Message::ChangeInputDevice(d) => {
                if !self.cleaning_enabled {
                    self.input_device = Some(d);
                }
                Command::Nothing
            },
            Message::ChangeTheme(t) => {
                self.theme = t;
                Command::SaveTheme(t)
            },
            Message::KeyboardEvent(e) => {
                if is_quit_shortcut(&e) {
                    Command::Exit
                } else {
                    Command::Nothing
                }
            },
        }
    }

    /// Reacts to the outcome of `CheckDeviceAccess(path)`: a readable device
    /// raises the lock's run flag and is locked; otherwise the user's group
    /// is checked.
    pub fn device_access_checked(&mut self, path: String, accessible: bool) -> (command: Command)
        ensures
            (*final(self), command@) == spec_device_access_checked(*old(self), path@, accessible),
    {
        if accessible {
            self.cleaning_signal = true;
            Command::StartKeyboardLock(path)
        } else {
            Command::CheckInputGroup
        }
    }

    /// Reacts to the outcome of `StartKeyboardLock`: success turns cleaning
    /// on; failure lowers the run flag again and logs the error.
    pub fn keyboard_lock_started(&mut self, result: Result<(), String>) -> (command: Command)
        ensures
            (*final(self), command@) == spec_keyboard_lock_started(*old(self), result_view(result)),
    {
        match result {
            Ok(()) => {
                self.cleaning_enabled = true;
                Command::Nothing
            },
            Err(e) => {
                self.cleaning_signal = false;
                Command::Log(e)
            },
        }
    }
}

/// Reacts to the outcome of `CheckInputGroup`: a member of the group is told
/// to check the device's permissions; anyone else is offered elevation.
pub fn input_group_checked(in_group: bool) -> (command: Command)
    ensures
        command@ == spec_input_group_checked(in_group),
{
    if in_group {
        Command::Log(
            "User is in group 'input' but cannot open device. Check device permissions, re-login, or udev rules.".to_owned(),
        )
    } else {
        Command::RequestElevation
    }
}

/// Reacts to the outcome of `RequestElevation`: a failure is logged.
pub fn elevation_finished(result: Result<(), String>) -> (command: Command)
    ensures
        command@ == spec_elevation_finished(result_view(result)),
{
    match result {
        Ok(()) => Command::Nothing,
        Err(e) => {
            let mut line = "Failed to escalate privileges: ".to_owned();
            line.append(e.as_str());
            Command::Log(line)
        },
    }
}

} // verus!
