# clean_my_keys

Clean My Keys locks a keyboard so it can be wiped without typing anything.

- `src/` is the verified library: which `/dev/input/` nodes are keyboards,
  when privileges must be raised, how the application reacts to each user
  action (a state machine whose outside work is returned as commands), how the
  keyboard lock retries and stops, which palette colours dress each widget
  state, and how the theme preference is named, stored and read back.
  `src/laws.rs` states and proves properties that span several steps.
- `app/` is the iced program around it: it scans devices, grabs keyboards
  with `evdev`, runs `id` and `pkexec` (through `karen`), reads and writes the
  preference file, computes colours, and draws the window. Fonts and the
  window icon are read from an `assets/` directory at start-up.
- `tests/` exercises the library on concrete values.
