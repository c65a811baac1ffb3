//! Properties of the application's reactions that hold across steps.

use vstd::prelude::*;
use crate::application::{
    escalation_failure_prefix, spec_device_access_checked, spec_elevation_finished,
    spec_input_group_checked, spec_keyboard_lock_started, spec_update, Application, CommandView,
    Message,
};
use crate::application::{is_quit_event, Key, KeyboardEvent};
use crate::device::{
    entry_keyboard, is_event_name, spec_accessible, spec_discovered, spec_keyboards, DeviceEntry,
    InputDevice, NodeAccess,
};
use crate::theme::ThemeId;
use crate::view::spec_action_enabled;

verus! {

/// The run flag of the lock's event pump agrees with the cleaning flag.
/// This holds between steps, except after a readable device was found and
/// before the lock's outcome is known.
pub open spec fn at_rest(s: Application) -> bool {
    s.cleaning_signal == s.cleaning_enabled
}

/// While cleaning is on, the run flag is raised and the picked keyboard has
/// a device path.
pub open spec fn consistent(s: Application) -> bool {
    s.cleaning_enabled ==> s.cleaning_signal && spec_action_enabled(s)
}

/// Opening the settings twice brings the application back where it was,
/// with nothing to do.
pub proof fn lemma_toggle_settings_twice(s: Application)
    ensures
        ({
            let (s1, c1) = spec_update(s, Message::ToggleSettings);
            let (s2, c2) = spec_update(s1, Message::ToggleSettings);
            s2 == s && c1 == CommandView::Nothing && c2 == CommandView::Nothing
        }),
{
}

/// While the keyboard is locked, no step changes which keyboard is picked.
pub proof fn lemma_device_kept_while_cleaning(
    s: Application,
    m: Message,
    path: Seq<char>,
    accessible: bool,
    result: Result<(), Seq<char>>,
)
    requires
        s.cleaning_enabled,
    ensures
        spec_update(s, m).0.input_device == s.input_device,
        spec_device_access_checked(s, path, accessible).0.input_device == s.input_device,
        spec_keyboard_lock_started(s, result).0.input_device == s.input_device,
{
}

/// Stopping turns cleaning off and lowers the run flag, so the event pump
/// ends and the keyboard is released.
pub proof fn lemma_stop_cleaning(s: Application)
    requires
        s.cleaning_enabled,
    ensures
        ({
            let (s1, c) = spec_update(s, Message::ToggleCleaning);
            !s1.cleaning_enabled && !s1.cleaning_signal && c == CommandView::Nothing
                && s1.input_device == s.input_device && s1.theme == s.theme && s1.settings_mode
                == s.settings_mode
        }),
{
}

/// Starting asks for a device check exactly when a keyboard with a device
/// path is picked, and for that path; the state itself does not change yet.
pub proof fn lemma_start_needs_picked_keyboard(s: Application)
    requires
        !s.cleaning_enabled,
    ensures
        spec_update(s, Message::ToggleCleaning).0 == s,
        spec_action_enabled(s) <==> spec_update(s, Message::ToggleCleaning).1 is CheckDeviceAccess,
        spec_action_enabled(s) ==> spec_update(s, Message::ToggleCleaning).1
            == CommandView::CheckDeviceAccess(s.input_device.unwrap().path@),
{
}

/// When the start button is disabled, pressing start changes nothing and
/// asks for nothing.
pub proof fn lemma_disabled_start_is_inert(s: Application)
    requires
        !s.cleaning_enabled,
        !spec_action_enabled(s),
    ensures
        spec_update(s, Message::ToggleCleaning) == (s, CommandView::Nothing),
{
}

/// A whole start: from a consistent resting state, once the device was found
/// readable and the lock reported back, cleaning is on exactly when the lock
/// started, the run flag agrees with it again, and a failure is logged with
/// the lock's error. A device that is not readable leads to the group check
/// and leaves the state untouched.
pub proof fn lemma_start_round(s: Application, path: Seq<char>, result: Result<(), Seq<char>>)
    requires
        at_rest(s),
        consistent(s),
        spec_update(s, Message::ToggleCleaning).1 == CommandView::CheckDeviceAccess(path),
    ensures
        spec_device_access_checked(s, path, false) == (s, CommandView::CheckInputGroup),
        ({
            let (s1, c1) = spec_device_access_checked(s, path, true);
            let (s2, c2) = spec_keyboard_lock_started(s1, result);
            &&& c1 == CommandView::StartKeyboardLock(path)
            &&& s1.cleaning_signal
            &&& at_rest(s2)
            &&& consistent(s2)
            &&& s2.cleaning_enabled == (result is Ok)
            &&& s2.input_device == s.input_device
            &&& (result matches Err(e) ==> c2 == CommandView::Log(e))
            &&& (result is Ok ==> c2 == CommandView::Nothing)
        }),
{
}

/// Starting successfully and then stopping brings the application back to
/// the state it started from.
pub proof fn lemma_start_then_stop_restores(s: Application, path: Seq<char>)
    requires
        at_rest(s),
        spec_update(s, Message::ToggleCleaning).1 == CommandView::CheckDeviceAccess(path),
    ensures
        ({
            let s1 = spec_device_access_checked(s, path, true).0;
            let s2 = spec_keyboard_lock_started(s1, Ok(())).0;
            let (s3, c3) = spec_update(s2, Message::ToggleCleaning);
            s2.cleaning_enabled && s3 == s && c3 == CommandView::Nothing
        }),
{
}

/// Every reaction to a user action keeps the run flag in agreement with the
/// cleaning flag, and keeps the state consistent.
pub proof fn lemma_update_keeps_rest(s: Application, m: Message)
    requires
        at_rest(s),
        consistent(s),
    ensures
        at_rest(spec_update(s, m).0),
        consistent(spec_update(s, m).0),
{
}

/// Opening or closing the settings flips which panel is shown and changes
/// nothing else, whether or not the keyboard is locked.
pub proof fn lemma_toggle_settings_flips_panel(s: Application)
    ensures
        ({
            let (s1, c) = spec_update(s, Message::ToggleSettings);
            &&& s1.settings_mode == !s.settings_mode
            &&& s1.cleaning_enabled == s.cleaning_enabled
            &&& s1.cleaning_signal == s.cleaning_signal
            &&& s1.input_device == s.input_device
            &&& s1.theme == s.theme
            &&& c == CommandView::Nothing
        }),
{
}

/// Picking a keyboard while nothing is locked selects exactly that keyboard,
/// whatever was picked before, and changes nothing else.
pub proof fn lemma_pick_keyboard(s: Application, d: InputDevice)
    requires
        !s.cleaning_enabled,
    ensures
        ({
            let (s1, c) = spec_update(s, Message::ChangeInputDevice(d));
            &&& s1.input_device == Some(d)
            &&& s1.cleaning_enabled == s.cleaning_enabled
            &&& s1.cleaning_signal == s.cleaning_signal
            &&& s1.settings_mode == s.settings_mode
            &&& s1.theme == s.theme
            &&& c == CommandView::Nothing
        }),
{
}

/// Choosing a theme always applies it and asks for it to be saved, whatever
/// panel is shown and whatever else the state holds.
pub proof fn lemma_choose_theme(s: Application, t: ThemeId)
    ensures
        ({
            let (s1, c) = spec_update(s, Message::ChangeTheme(t));
            &&& s1.theme == t
            &&& s1.cleaning_enabled == s.cleaning_enabled
            &&& s1.cleaning_signal == s.cleaning_signal
            &&& s1.input_device == s.input_device
            &&& s1.settings_mode == s.settings_mode
            &&& c == CommandView::SaveTheme(t)
        }),
{
}

/// A key press without Control never quits and never changes the state.
pub proof fn lemma_no_quit_without_control(s: Application, key: Key)
    ensures
        !is_quit_event(KeyboardEvent::KeyPressed { key, control: false }),
        spec_update(s, Message::KeyboardEvent(KeyboardEvent::KeyPressed { key, control: false }))
            == (s, CommandView::Nothing),
{
}

/// Control with `q` or `Q` quits; Control with any other text does not; no
/// keyboard event changes the state.
pub proof fn lemma_quit_on_control_q(s: Application, c: String)
    ensures
        (c@ == seq!['q'] || c@ == seq!['Q']) ==> spec_update(
            s,
            Message::KeyboardEvent(KeyboardEvent::KeyPressed { key: Key::Character(c), control: true }),
        ) == (s, CommandView::Exit),
        !(c@ == seq!['q'] || c@ == seq!['Q']) ==> spec_update(
            s,
            Message::KeyboardEvent(KeyboardEvent::KeyPressed { key: Key::Character(c), control: true }),
        ) == (s, CommandView::Nothing),
        spec_update(s, Message::KeyboardEvent(KeyboardEvent::Other)) == (s, CommandView::Nothing),
{
}

/// The keyboard a directory entry stands for, read off its fields: an entry
/// whose file name begins with `event` and whose opened device has the `A`
/// key, listed under the device's name (or "Unknown keyboard") and the
/// entry's path.
pub open spec fn keyboard_in_entry(e: DeviceEntry) -> Option<(Seq<char>, Seq<char>)> {
    match (e.file_name, e.opened) {
        (Some(f), Some(d)) => if f@.len() >= 5 && f@[0] == 'e' && f@[1] == 'v' && f@[2] == 'e'
            && f@[3] == 'n' && f@[4] == 't' && d.has_key_a {
            Some(
                (
                    match d.name {
                        Some(n) => n@,
                        None => "Unknown keyboard"@,
                    },
                    e.path@,
                ),
            )
        } else {
            None
        },
        _ => None,
    }
}

proof fn lemma_event_name_chars(f: Seq<char>)
    ensures
        is_event_name(f) <==> (f.len() >= 5 && f[0] == 'e' && f[1] == 'v' && f[2] == 'e' && f[3]
            == 'n' && f[4] == 't'),
{
    let ev = seq!['e', 'v', 'e', 'n', 't'];
    if f.len() >= 5 {
        let sub = f.subrange(0, 5);
        assert(sub[0] == f[0] && sub[1] == f[1] && sub[2] == f[2] && sub[3] == f[3] && sub[4]
            == f[4]);
        if f[0] == 'e' && f[1] == 'v' && f[2] == 'e' && f[3] == 'n' && f[4] == 't' {
            assert(sub =~= ev);
        }
    }
}

proof fn lemma_entry_keyboard_agrees(e: DeviceEntry)
    ensures
        entry_keyboard(e) == keyboard_in_entry(e),
{
    if let Some(f) = e.file_name {
        lemma_event_name_chars(f@);
    }
}

proof fn lemma_keyboards_are_filter_map(entries: Seq<DeviceEntry>)
    ensures
        spec_keyboards(entries) == entries.filter_map(|e: DeviceEntry| keyboard_in_entry(e)),
    decreases entries.len(),
{
    if entries.len() > 0 {
        lemma_keyboards_are_filter_map(entries.drop_last());
        lemma_entry_keyboard_agrees(entries.last());
        let f = |e: DeviceEntry| keyboard_in_entry(e);
        let rest = entries.drop_last().filter_map(f);
        match keyboard_in_entry(entries.last()) {
            Some(k) => {
                assert(rest.push(k) =~= rest + seq![k]);
            },
            None => {},
        }
    }
}

proof fn lemma_filter_map_keeps<A, B>(s: Seq<A>, f: spec_fn(A) -> Option<B>, i: int)
    requires
        0 <= i < s.len(),
        f(s[i]) is Some,
    ensures
        s.filter_map(f).contains(f(s[i]).unwrap()),
    decreases s.len(),
{
    let rest = s.drop_last().filter_map(f);
    if i == s.len() - 1 {
        let k = f(s.last()).unwrap();
        assert((rest + seq![k])[rest.len() as int] == k);
    } else {
        assert(s.drop_last()[i] == s[i]);
        lemma_filter_map_keeps(s.drop_last(), f, i);
        let k = f(s[i]).unwrap();
        let j = choose|j: int| 0 <= j < rest.len() && rest[j] == k;
        match f(s.last()) {
            Some(l) => {
                assert((rest + seq![l])[j] == k);
            },
            None => {},
        }
    }
}

proof fn lemma_filter_map_sources<A, B>(s: Seq<A>, f: spec_fn(A) -> Option<B>, j: int)
    requires
        0 <= j < s.filter_map(f).len(),
    ensures
        exists|i: int| 0 <= i < s.len() && f(s[i]) == Some(s.filter_map(f)[j]),
    decreases s.len(),
{
    let rest = s.drop_last().filter_map(f);
    let all = s.filter_map(f);
    if j < rest.len() {
        lemma_filter_map_sources(s.drop_last(), f, j);
        let i = choose|i: int| 0 <= i < s.drop_last().len() && f(s.drop_last()[i]) == Some(rest[j]);
        match f(s.last()) {
            Some(l) => {
                assert(all[j] == (rest + seq![l])[j]);
            },
            None => {},
        }
        assert(s[i] == s.drop_last()[i]);
    } else {
        let l = f(s.last()).unwrap();
        assert(all[j] == (rest + seq![l])[j]);
        assert(s[s.len() - 1] == s.last());
    }
}

/// The devices offered to the user are every keyboard among the scanned
/// entries, in directory order, each under its device's name and its entry's
/// path; only when no entry is a keyboard is the "No keyboard detected"
/// placeholder offered instead. In particular no keyboard entry is skipped,
/// and everything listed (apart from the placeholder) is such an entry.
pub proof fn lemma_discovered_keyboards(entries: Seq<DeviceEntry>)
    ensures
        ({
            let found = entries.filter_map(|e: DeviceEntry| keyboard_in_entry(e));
            &&& found.len() > 0 ==> spec_discovered(entries) == found
            &&& found.len() == 0 ==> spec_discovered(entries) == seq![
                ("No keyboard detected"@, Seq::<char>::empty()),
            ]
        }),
        forall|i: int|
            0 <= i < entries.len() && (#[trigger] keyboard_in_entry(entries[i])) is Some
                ==> spec_discovered(entries).contains(keyboard_in_entry(entries[i]).unwrap()),
        (forall|i: int| 0 <= i < entries.len() ==> (#[trigger] keyboard_in_entry(entries[i])) is None)
            ==> spec_discovered(entries) == seq![("No keyboard detected"@, Seq::<char>::empty())],
        (exists|i: int| 0 <= i < entries.len() && (#[trigger] keyboard_in_entry(entries[i])) is Some)
            ==> forall|j: int|
            0 <= j < spec_discovered(entries).len() ==> exists|i: int|
                0 <= i < entries.len() && keyboard_in_entry(entries[i]) == Some(
                    #[trigger] spec_discovered(entries)[j],
                ),
{
    lemma_keyboards_are_filter_map(entries);
    let found = entries.filter_map(|e: DeviceEntry| keyboard_in_entry(e));
    assert forall|i: int|
        0 <= i < entries.len() && (#[trigger] keyboard_in_entry(entries[i])) is Some implies spec_discovered(
        entries,
    ).contains(keyboard_in_entry(entries[i]).unwrap()) by {
        lemma_filter_map_keeps(entries, |e: DeviceEntry| keyboard_in_entry(e), i);
    }
    if forall|i: int| 0 <= i < entries.len() ==> (#[trigger] keyboard_in_entry(entries[i])) is None {
        if found.len() > 0 {
            lemma_filter_map_sources(entries, |e: DeviceEntry| keyboard_in_entry(e), 0);
        }
    }
    if exists|i: int| 0 <= i < entries.len() && (#[trigger] keyboard_in_entry(entries[i])) is Some {
        let i0 = choose|i: int| 0 <= i < entries.len() && (#[trigger] keyboard_in_entry(entries[i])) is Some;
        lemma_filter_map_keeps(entries, |e: DeviceEntry| keyboard_in_entry(e), i0);
        assert forall|j: int| 0 <= j < spec_discovered(entries).len() implies exists|i: int|
            0 <= i < entries.len() && keyboard_in_entry(entries[i]) == Some(
                #[trigger] spec_discovered(entries)[j],
            ) by {
            lemma_filter_map_sources(entries, |e: DeviceEntry| keyboard_in_entry(e), j);
        }
    }
}

/// The path an entry contributes to the permission check, read off its
/// fields: an entry whose file name begins with `event` and that the user
/// may open.
pub open spec fn path_of_open_event_node(e: NodeAccess) -> Option<Seq<char>> {
    match e.file_name {
        Some(f) => if f@.len() >= 5 && f@[0] == 'e' && f@[1] == 'v' && f@[2] == 'e' && f@[3] == 'n'
            && f@[4] == 't' && e.accessible {
            Some(e.path@)
        } else {
            None
        },
        None => None,
    }
}

proof fn lemma_accessible_is_filter_map(entries: Seq<NodeAccess>)
    ensures
        spec_accessible(entries) == entries.filter_map(|e: NodeAccess| path_of_open_event_node(e)),
    decreases entries.len(),
{
    if entries.len() > 0 {
        lemma_accessible_is_filter_map(entries.drop_last());
        let e = entries.last();
        if let Some(f) = e.file_name {
            lemma_event_name_chars(f@);
        }
        let rest = entries.drop_last().filter_map(|e: NodeAccess| path_of_open_event_node(e));
        match path_of_open_event_node(e) {
            Some(p) => {
                assert(rest.push(p) =~= rest + seq![p]);
            },
            None => {},
        }
    }
}

/// The paths found openable are exactly those of the event nodes the user
/// may open, in directory order: every such entry is listed, nothing else
/// is, and so the list is empty exactly when no event node can be opened.
pub proof fn lemma_accessible_paths(entries: Seq<NodeAccess>)
    ensures
        spec_accessible(entries) == entries.filter_map(|e: NodeAccess| path_of_open_event_node(e)),
        forall|i: int|
            0 <= i < entries.len() && (#[trigger] path_of_open_event_node(entries[i])) is Some
                ==> spec_accessible(entries).contains(entries[i].path@),
        forall|j: int|
            0 <= j < spec_accessible(entries).len() ==> exists|i: int|
                0 <= i < entries.len() && path_of_open_event_node(entries[i]) == Some(
                    #[trigger] spec_accessible(entries)[j],
                ),
        spec_accessible(entries).len() == 0 <==> forall|i: int|
            0 <= i < entries.len() ==> (#[trigger] path_of_open_event_node(entries[i])) is None,
{
    lemma_accessible_is_filter_map(entries);
    let f = |e: NodeAccess| path_of_open_event_node(e);
    assert forall|i: int|
        0 <= i < entries.len() && (#[trigger] path_of_open_event_node(entries[i])) is Some implies spec_accessible(
        entries,
    ).contains(entries[i].path@) by {
        lemma_filter_map_keeps(entries, f, i);
    }
    assert forall|j: int| 0 <= j < spec_accessible(entries).len() implies exists|i: int|
        0 <= i < entries.len() && path_of_open_event_node(entries[i]) == Some(
            #[trigger] spec_accessible(entries)[j],
        ) by {
        lemma_filter_map_sources(entries, f, j);
    }
    if spec_accessible(entries).len() == 0 {
        assert forall|i: int|
            0 <= i < entries.len() implies (#[trigger] path_of_open_event_node(entries[i])) is None by {
            if path_of_open_event_node(entries[i]) is Some {
                lemma_filter_map_keeps(entries, f, i);
            }
        }
    } else {
        lemma_filter_map_sources(entries, f, 0);
    }
}

/// When the picked device cannot be opened, a member of the `input` group
/// only gets a note in the log and is never offered elevation; anyone else is
/// offered elevation. A failed elevation logs a line that ends with the
/// error's own text; a successful one asks for nothing more.
pub proof fn lemma_refused_device_outcomes(error: Seq<char>)
    ensures
        spec_input_group_checked(true) is Log,
        spec_input_group_checked(false) == CommandView::RequestElevation,
        spec_elevation_finished(Ok(())) == CommandView::Nothing,
        ({
            let prefix = escalation_failure_prefix();
            spec_elevation_finished(Err(error)) matches CommandView::Log(line) && line.len()
                == prefix.len() + error.len() && line.subrange(0, prefix.len() as int) == prefix
                && line.subrange(prefix.len() as int, line.len() as int) == error
        }),
{
    let prefix = escalation_failure_prefix();
    let line = prefix + error;
    assert(line.subrange(0, prefix.len() as int) =~= prefix);
    assert(line.subrange(prefix.len() as int, line.len() as int) =~= error);
}

} // verus!
