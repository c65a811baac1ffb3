//! Input devices: which nodes under `/dev/input/` are keyboards, which ones
//! the user may open, and the decisions taken while a keyboard is locked.
//! Opening devices, grabbing them and reading their events is done by the
//! caller, which hands the outcomes in as plain values.

use vstd::prelude::*;
use vstd::string::*;

verus! {

/// A keyboard the user can pick: its name and the path of its device node.
/// An empty path marks the "No keyboard detected" placeholder.
pub struct InputDevice {
    pub name: String,
    pub path: String,
}

/// The name and path of a device, as text.
pub open spec fn device_view(d: InputDevice) -> (Seq<char>, Seq<char>) {
    (d.name@, d.path@)
}

/// What opening an event node revealed about the device behind it.
pub struct OpenedDevice {
    /// The name the device reports, if any.
    pub name: Option<String>,
    /// The device reports keys and the `A` key is among them.
    pub has_key_a: bool,
}

/// One entry of the `/dev/input/` directory, as seen while looking for
/// keyboards. `opened` is `None` when the node was not opened or could not be.
pub struct DeviceEntry {
    pub path: String,
    pub file_name: Option<String>,
    pub opened: Option<OpenedDevice>,
}

/// One entry of the `/dev/input/` directory, as seen while checking
/// permissions: whether the user may open it for reading.
pub struct NodeAccess {
    pub path: String,
    pub file_name: Option<String>,
    pub accessible: bool,
}

/// The file name of an event node starts with `event`.
pub open spec fn is_event_name(name: Seq<char>) -> bool {
    name.len() >= 5 && name.subrange(0, 5) == seq!['e', 'v', 'e', 'n', 't']
}

/// Whether a `/dev/input/` file name belongs to an event node.
pub fn is_event_node(file_name: &str) -> (b: bool)
    ensures
        b == is_event_name(file_name@),
{
    let n = file_name.unicode_len();
    if n < 5 {
        return false;
    }
    let b = file_name.get_char(0) == 'e' && file_name.get_char(1) == 'v' && file_name.get_char(2)
        == 'e' && file_name.get_char(3) == 'n' && file_name.get_char(4) == 't';
    if b {
        assert(file_name@.subrange(0, 5) =~= seq!['e', 'v', 'e', 'n', 't']);
    } else {
        assert(file_name@.subrange(0, 5) != seq!['e', 'v', 'e', 'n', 't']) by {
            let s = file_name@.subrange(0, 5);
            assert(s[0] == file_name@[0] && s[1] == file_name@[1] && s[2] == file_name@[2]
                && s[3] == file_name@[3] && s[4] == file_name@[4]);
        }
    }
    b
}

/// The entry's file name marks an event node.
pub open spec fn entry_is_event_node(file_name: Option<String>) -> bool {
    match file_name {
        Some(f) => is_event_name(f@),
        None => false,
    }
}

/// The keyboard an entry stands for, if it is an event node whose device
/// has the `A` key; a device without a name is called "Unknown keyboard".
pub open spec fn entry_keyboard(e: DeviceEntry) -> Option<(Seq<char>, Seq<char>)> {
    if entry_is_event_node(e.file_name) {
        match e.opened {
            Some(d) => if d.has_key_a {
                Some(
                    (
                        match d.name {
                            Some(n) => n@,
                            None => "Unknown keyboard"@,
                        },
                        e.path@,
                    ),
                )
            } else {
                None
            },
            None => None,
        }
    } else {
        None
    }
}

/// The keyboards among `entries`, in directory order.
pub open spec fn spec_keyboards(entries: Seq<DeviceEntry>) -> Seq<(Seq<char>, Seq<char>)>
    decreases entries.len(),
{
    if entries.len() == 0 {
        Seq::empty()
    } else {
        let rest = spec_keyboards(entries.drop_last());
        match entry_keyboard(entries.last()) {
            Some(k) => rest.push(k),
            None => rest,
        }
    }
}

/// The devices offered to the user: the keyboards found, or a single
/// "No keyboard detected" entry with an empty path when there are none.
pub open spec fn spec_discovered(entries: Seq<DeviceEntry>) -> Seq<(Seq<char>, Seq<char>)> {
    if spec_keyboards(entries).len() == 0 {
        seq![("No keyboard detected"@, Seq::<char>::empty())]
    } else {
        spec_keyboards(entries)
    }
}

/// Lists the keyboards among the scanned `/dev/input/` entries; when there
/// is none, lists the "No keyboard detected" placeholder instead.
pub fn discover_keyboards(entries: &Vec<DeviceEntry>) -> (keyboards: Vec<InputDevice>)
    ensures
        keyboards@.map_values(|d: InputDevice| device_view(d)) == spec_discovered(entries@),
        keyboards@.len() > 0,
{
    let mut keyboards: Vec<InputDevice> = Vec::new();
    let mut i: usize = 0;
    while i < entries.len()
        invariant
            i <= entries@.len(),
            keyboards@.map_values(|d: InputDevice| device_view(d)) == spec_keyboards(
                entries@.subrange(0, i as int),
            ),
        decreases entries.len() - i,
    {
        let entry = &entries[i];
        let ghost before = keyboards@;
        assert(entries@.subrange(0, i + 1).drop_last() =~= entries@.subrange(0, i as int));
        let is_event = match &entry.file_name {
            Some(f) => is_event_node(f.as_str()),
            None => false,
        };
        if is_event {
            match &entry.opened {
                Some(d) => {
                    if d.has_key_a {
                        let name = match &d.name {
                            Some(n) => n.clone(),
                            None => "Unknown keyboard".to_owned(),
                        };
                        keyboards.push(InputDevice { name, path: entry.path.clone() });
                        assert(keyboards@.map_values(|d: InputDevice| device_view(d))
                            =~= before.map_values(|d: InputDevice| device_view(d)).push(
                            device_view(keyboards@.last()),
                        ));
                    }
                },
                None => {},
            }
        }
        i = i + 1;
    }
    assert(entries@.subrange(0, entries@.len() as int) =~= entries@);
    if keyboards.len() == 0 {
        assert(spec_keyboards(entries@).len() == 0) by {
            assert(keyboards@.map_values(|d: InputDevice| device_view(d)).len() == 0);
        }
        keyboards.push(
            InputDevice { name: "No keyboard detected".to_owned(), path: "".to_owned() },
        );
        proof {
            reveal_strlit("");
        }
        assert(keyboards@[0].path@ =~= Seq::<char>::empty());
        assert(keyboards@.map_values(|d: InputDevice| device_view(d)) =~= spec_discovered(
            entries@,
        ));
    }
    keyboards
}

/// The paths of the entries that are event nodes the user may open.
pub open spec fn spec_accessible(entries: Seq<NodeAccess>) -> Seq<Seq<char>>
    decreases entries.len(),
{
    if entries.len() == 0 {
        Seq::empty()
    } else {
        let rest = spec_accessible(entries.drop_last());
        let e = entries.last();
        if entry_is_event_node(e.file_name) && e.accessible {
            rest.push(e.path@)
        } else {
            rest
        }
    }
}

/// The paths of the event nodes the user may open, in directory order.
pub fn accessible_input_devices(entries: &Vec<NodeAccess>) -> (paths: Vec<String>)
    ensures
        paths@.map_values(|p: String| p@) == spec_accessible(entries@),
{
    let mut paths: Vec<String> = Vec::new();
    let mut i: usize = 0;
    while i < entries.len()
        invariant
            i <= entries@.len(),
            paths@.map_values(|p: String| p@) == spec_accessible(entries@.subrange(0, i as int)),
        decreases entries.len() - i,
    {
        let entry = &entries[i];
        let ghost before = paths@;
        assert(entries@.subrange(0, i + 1).drop_last() =~= entries@.subrange(0, i as int));
        let is_event = match &entry.file_name {
            Some(f) => is_event_node(f.as_str()),
            None => false,
        };
        if is_event && entry.accessible {
            paths.push(entry.path.clone());
            assert(paths@.map_values(|p: String| p@) =~= before.map_values(|p: String| p@).push(
                entry.path@,
            ));
        }
        i = i + 1;
    }
    assert(entries@.subrange(0, entries@.len() as int) =~= entries@);
    paths
}

} // verus!
