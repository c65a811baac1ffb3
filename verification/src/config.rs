//! Where the theme preference lives on disk and how its contents are read
//! and written. Reading and writing the file itself is left to the caller.

use vstd::prelude::*;
use crate::text::{first_non_whitespace, end_without_whitespace, spec_trim, trim};
use crate::theme::{
    spec_find_theme, spec_theme_name, lemma_theme_catalog_facts, theme_from_name,
    lemma_find_own_name, ThemeId, FERRA_INDEX, THEME_CATALOG_LEN,
};

verus! {

/// `base` with the relative component `part` appended, with a `/` between
/// them unless `base` is empty or already ends in `/`.
pub open spec fn joined_path(base: Seq<char>, part: Seq<char>) -> Seq<char> {
    if base.len() == 0 || base[base.len() - 1] == '/' {
        base + part
    } else {
        base + seq!['/'] + part
    }
}

/// `part` is a single plain path component: non-empty, not `.` or `..`, and
/// with no separator or drive marker in it.
pub open spec fn is_plain_component(part: Seq<char>) -> bool {
    &&& part.len() > 0
    &&& part != seq!['.']
    &&& part != seq!['.', '.']
    &&& forall|k: int| 0 <= k < part.len() ==> part[k] != '/' && part[k] != '\\' && part[k] != ':'
}

/// Calls `Path::new(base).join(part)` and turns the result back into text.
///
/// Trusted: for a plain relative component, `PathBuf::push` appends it to
/// `base`, inserting the separator `/` unless `base` is empty or already ends
/// in one. This is how std behaves on Linux, the only platform this package
/// builds for (its device layer needs the Linux-only `evdev`).
#[verifier::external_body]
fn join_path(base: &str, part: &str) -> (joined: String)
    requires
        is_plain_component(part@),
    ensures
        joined@ == joined_path(base@, part@),
{
    std::path::Path::new(base).join(part).to_string_lossy().into_owned()
}

/// The configuration directory: `$XDG_CONFIG_HOME` when it is set, else
/// `$HOME/.config`, else `.config` relative to the working directory.
pub fn config_directory(xdg_config_home: Option<String>, home: Option<String>) -> (dir: String)
    ensures
        match xdg_config_home {
            Some(x) => dir@ == x@,
            None => match home {
                Some(h) => dir@ == joined_path(h@, ".config"@),
                None => dir@ == ".config"@,
            },
        },
{
    match xdg_config_home {
        Some(x) => x,
        None => match home {
            Some(h) => {
                proof {
                    reveal_strlit(".config");
                    assert(".config"@.len() == 7);
                }
                join_path(h.as_str(), ".config")
            },
            None => ".config".to_owned(),
        },
    }
}

/// The file that stores the theme preference:
/// `<config dir>/clean-my-keys/theme`.
pub fn theme_config_path(config_dir: &str) -> (path: String)
    ensures
        path@ == joined_path(joined_path(config_dir@, "clean-my-keys"@), "theme"@),
{
    proof {
        reveal_strlit("clean-my-keys");
        reveal_strlit("theme");
        assert("clean-my-keys"@.len() == 13 && "theme"@.len() == 5);
    }
    let app_dir = join_path(config_dir, "clean-my-keys");
    join_path(app_dir.as_str(), "theme")
}

/// The theme that a configuration file with `contents` selects (`None` when
/// the file could not be read as text): the catalog theme named by the
/// trimmed contents, or Ferra when there is none.
pub open spec fn spec_theme_from_config(contents: Option<Seq<char>>) -> nat {
    match contents {
        Some(c) => match spec_find_theme(spec_trim(c), 0) {
            Some(i) => i,
            None => FERRA_INDEX as nat,
        },
        None => FERRA_INDEX as nat,
    }
}

/// Picks the theme from the configuration file's contents (`None` when the
/// file could not be read as text).
pub fn load_theme_from_config(contents: Option<&str>) -> (theme: ThemeId)
    ensures
        theme.spec_index() == spec_theme_from_config(
            match contents {
                Some(c) => Some(c@),
                None => None,
            },
        ),
{
    match contents {
        Some(c) => match theme_from_name(trim(c)) {
            Some(t) => t,
            None => ThemeId::ferra(),
        },
        None => ThemeId::ferra(),
    }
}

/// What the configuration file holds for `theme`: its display name.
pub fn theme_config_contents(theme: &ThemeId) -> (contents: String)
    ensures
        contents@ == spec_theme_name(theme.spec_index() as int),
        spec_theme_from_config(Some(contents@)) == theme.spec_index(),
{
    let i = theme.index();
    proof {
        lemma_theme_config_round_trip(i as nat);
    }
    theme.name()
}

/// Saving a theme and loading the file back gives the same theme.
pub proof fn lemma_theme_config_round_trip(i: nat)
    requires
        i < THEME_CATALOG_LEN,
    ensures
        spec_theme_from_config(Some(spec_theme_name(i as int))) == i,
{
    lemma_theme_catalog_facts();
    let s = spec_theme_name(i as int);
    assert(s.len() > 0);
    assert(first_non_whitespace(s, 0) == 0);
    assert(end_without_whitespace(s, 0, s.len() as int) == s.len());
    assert(s.subrange(0, s.len() as int) =~= s);
    assert(spec_trim(s) == s);
    lemma_find_own_name(i);
}

} // verus!
