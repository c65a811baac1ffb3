//! What the window shows for a given state: which icons, texts and colours,
//! and whether the start/stop button can be pressed.

use vstd::prelude::*;
use vstd::string::*;
use crate::application::Application;

verus! {

/// The symbols the interface draws from its icon font.
#[derive(Clone, Copy, Debug, PartialEq, Eq, Structural)]
pub enum Glyph {
    Keyboard,
    KeyboardLock,
    Mop,
    Usb,
    Settings,
    ArrowBack,
}

/// The panels the window can show below its header.
#[derive(Clone, Copy, Debug, PartialEq, Eq, Structural)]
pub enum Panel {
    Main,
    Settings,
}

/// The parts of the main panel that depend on the state.
pub struct MainView {
    /// The icon next to the description.
    pub status_glyph: Glyph,
    /// The colour of that icon, as `0x00RRGGBB`.
    pub status_color: u32,
    /// The description of the current mode.
    pub description: &'static str,
    /// The label of the start/stop button.
    pub action_label: &'static str,
    /// The start/stop button can be pressed.
    pub action_enabled: bool,
}

/// The colour of the status icon while the keyboard is locked.
pub const LOCKED_COLOR: u32 = 0x0000_c85b;

/// The colour of the status icon while the keyboard is free.
pub const UNLOCKED_COLOR: u32 = 0x00f7_9c3b;

/// The description while the keyboard is locked.
pub open spec fn locked_description() -> Seq<char> {
    "Keyboard input is now disabled. You can now safely clean your keys without triggering unwanted commands."@
}

/// The description while the keyboard is free.
pub open spec fn unlocked_description() -> Seq<char> {
    "Lock your keys for a quick wipe. Press the button to pause all keyboard inputs safely"@
}

/// The start/stop button can be pressed: a keyboard with a device path is
/// picked (the "No keyboard detected" placeholder has none).
pub open spec fn spec_action_enabled(s: Application) -> bool {
    match s.input_device {
        Some(d) => d.path@.len() > 0,
        None => false,
    }
}

impl Application {
    /// The icon of the header button: back while the settings are shown,
    /// the settings gear otherwise.
    pub fn header_glyph(&self) -> (g: Glyph)
        ensures
            g == (if self.settings_mode {
                Glyph::ArrowBack
            } else {
                Glyph::Settings
            }),
    {
        if self.settings_mode {
            Glyph::ArrowBack
        } else {
            Glyph::Settings
        }
    }

    /// The panel shown below the header: the settings while they are open,
    /// the main panel otherwise.
    pub fn shown_panel(&self) -> (p: Panel)
        ensures
            p == (if self.settings_mode {
                Panel::Settings
            } else {
                Panel::Main
            }),
    {
        if self.settings_mode {
            Panel::Settings
        } else {
            Panel::Main
        }
    }

    /// The state-dependent parts of the main panel.
    pub fn main_view(&self) -> (v: MainView)
        ensures
            v.status_glyph == (if self.cleaning_enabled {
                Glyph::KeyboardLock
            } else {
                Glyph::Keyboard
            }),
            v.status_color == (if self.cleaning_enabled {
                LOCKED_COLOR
            } else {
                UNLOCKED_COLOR
            }),
            v.description@ == (if self.cleaning_enabled {
                locked_description()
            } else {
                unlocked_description()
            }),
            v.action_label@ == (if self.cleaning_enabled {
                "Stop"@
            } else {
                "Start"@
            }),
            v.action_enabled == spec_action_enabled(*self),
    {
        let action_enabled = match &self.input_device {
            Some(d) => d.path.as_str().unicode_len() > 0,
            None => false,
        };
        if self.cleaning_enabled {
            MainView {
                status_glyph: Glyph::KeyboardLock,
                status_color: LOCKED_COLOR,
                description: "Keyboard input is now disabled. You can now safely clean your keys without triggering unwanted commands.",
                action_label: "Stop",
                action_enabled,
            }
        } else {
            MainView {
                status_glyph: Glyph::Keyboard,
                status_color: UNLOCKED_COLOR,
                description: "Lock your keys for a quick wipe. Press the button to pause all keyboard inputs safely",
                action_label: "Start",
                action_enabled,
            }
        }
    }
}

} // verus!
