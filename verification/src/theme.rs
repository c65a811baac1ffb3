//! The catalog of built-in colour themes, looked up by name.

use vstd::prelude::*;
use crate::text::spec_is_whitespace;

verus! {

/// Number of built-in themes in the catalog.
pub const THEME_CATALOG_LEN: usize = 22;

/// Position of the Ferra theme, the application's default, in the catalog.
pub const FERRA_INDEX: usize = 21;

/// The display name of the theme at `index` in the catalog (the empty
/// text outside it).
pub open spec fn spec_theme_name(index: int) -> Seq<char> {
    if index == 0 {
        "Light"@
    } else if index == 1 {
        "Dark"@
    } else if index == 2 {
        "Dracula"@
    } else if index == 3 {
        "Nord"@
    } else if index == 4 {
        "Solarized Light"@
    } else if index == 5 {
        "Solarized Dark"@
    } else if index == 6 {
        "Gruvbox Light"@
    } else if index == 7 {
        "Gruvbox Dark"@
    } else if index == 8 {
        "Catppuccin Latte"@
    } else if index == 9 {
        "Catppuccin Frappé"@
    } else if index == 10 {
        "Catppuccin Macchiato"@
    } else if index == 11 {
        "Catppuccin Mocha"@
    } else if index == 12 {
        "Tokyo Night"@
    } else if index == 13 {
        "Tokyo Night Storm"@
    } else if index == 14 {
        "Tokyo Night Light"@
    } else if index == 15 {
        "Kanagawa Wave"@
    } else if index == 16 {
        "Kanagawa Dragon"@
    } else if index == 17 {
        "Kanagawa Lotus"@
    } else if index == 18 {
        "Moonfly"@
    } else if index == 19 {
        "Nightfly"@
    } else if index == 20 {
        "Oxocarbon"@
    } else if index == 21 {
        "Ferra"@
    } else {
        Seq::empty()
    }
}

/// Facts about the catalog's names: no two themes share a name, and every
/// name is non-empty and neither starts nor ends with whitespace.
pub open spec fn theme_catalog_facts() -> bool {
    &&& forall|i: int, j: int|
        0 <= i < j < THEME_CATALOG_LEN ==> #[trigger] spec_theme_name(i) != #[trigger] spec_theme_name(
            j,
        )
    &&& forall|i: int|
        0 <= i < THEME_CATALOG_LEN ==> {
            let name = #[trigger] spec_theme_name(i);
            &&& name.len() > 0
            &&& !spec_is_whitespace(name[0])
            &&& !spec_is_whitespace(name[name.len() - 1])
        }
}

/// The catalog's names are pairwise different, non-empty, and neither start
/// nor end with whitespace.
pub proof fn lemma_theme_catalog_facts()
    ensures
        theme_catalog_facts(),
{
    reveal_strlit("Light");
    reveal_strlit("Dark");
    reveal_strlit("Dracula");
    reveal_strlit("Nord");
    reveal_strlit("Solarized Light");
    reveal_strlit("Solarized Dark");
    reveal_strlit("Gruvbox Light");
    reveal_strlit("Gruvbox Dark");
    reveal_strlit("Catppuccin Latte");
    reveal_strlit("Catppuccin Frappé");
    reveal_strlit("Catppuccin Macchiato");
    reveal_strlit("Catppuccin Mocha");
    reveal_strlit("Tokyo Night");
    reveal_strlit("Tokyo Night Storm");
    reveal_strlit("Tokyo Night Light");
    reveal_strlit("Kanagawa Wave");
    reveal_strlit("Kanagawa Dragon");
    reveal_strlit("Kanagawa Lotus");
    reveal_strlit("Moonfly");
    reveal_strlit("Nightfly");
    reveal_strlit("Oxocarbon");
    reveal_strlit("Ferra");
    assert forall|i: int| 0 <= i < THEME_CATALOG_LEN implies {
        let name = #[trigger] spec_theme_name(i);
        &&& name.len() > 0
        &&& !spec_is_whitespace(name[0])
        &&& !spec_is_whitespace(name[name.len() - 1])
    } by {
    }
    assert forall|i: int, j: int| 0 <= i < j < THEME_CATALOG_LEN implies #[trigger] spec_theme_name(i)
        != #[trigger] spec_theme_name(j) by {
        let a = spec_theme_name(i);
        let b = spec_theme_name(j);
        if a.len() == b.len() {
            assert(a[0] != b[0] || a[1] != b[1] || a[a.len() - 1] != b[b.len() - 1]
                || a[a.len() - 2] != b[b.len() - 2]);
        }
    }
}

/// Calls `Theme::ALL.len()` on iced's theme catalog.
///
/// Trusted: iced 0.14 lists 22 built-in themes in `Theme::ALL`.
#[verifier::external_body]
fn theme_count() -> (n: usize)
    ensures
        n == THEME_CATALOG_LEN,
{
    iced::Theme::ALL.len()
}

/// Calls `Theme::ALL[index].to_string()`.
///
/// Trusted: `Theme::ALL` lists Light, Dark, Dracula, Nord, Solarized Light,
/// Solarized Dark, Gruvbox Light, Gruvbox Dark, Catppuccin Latte, Catppuccin
/// Frappé, Catppuccin Macchiato, Catppuccin Mocha, Tokyo Night, Tokyo Night
/// Storm, Tokyo Night Light, Kanagawa Wave, Kanagawa Dragon, Kanagawa Lotus,
/// Moonfly, Nightfly, Oxocarbon and Ferra, in that order, and `Display`
/// writes each under that name.
#[verifier::external_body]
fn theme_name_at(index: usize) -> (name: String)
    requires
        index < THEME_CATALOG_LEN,
    ensures
        name@ == spec_theme_name(index as int),
{
    iced::Theme::ALL[index].to_string()
}

/// A theme of the built-in catalog, held as its position there.
#[derive(Clone, Copy, Debug, PartialEq, Eq, Structural)]
pub struct ThemeId {
    index: usize,
}

impl ThemeId {
    #[verifier::type_invariant]
    spec fn in_catalog(self) -> bool {
        self.index < THEME_CATALOG_LEN
    }

    /// The theme's position in the catalog.
    pub closed spec fn spec_index(self) -> nat {
        self.index as nat
    }

    /// The theme at position `index`, if the catalog has one there.
    pub fn from_index(index: usize) -> (r: Option<ThemeId>)
        ensures
            r is Some <==> index < THEME_CATALOG_LEN,
            r matches Some(t) ==> t.spec_index() == index,
    {
        if index < theme_count() {
            Some(ThemeId { index })
        } else {
            None
        }
    }

    /// The application's default theme, Ferra.
    pub fn ferra() -> (t: ThemeId)
        ensures
            t.spec_index() == FERRA_INDEX,
            spec_theme_name(t.spec_index() as int) == "Ferra"@,
    {
        ThemeId { index: FERRA_INDEX }
    }

    /// The theme's position in the catalog.
    pub fn index(&self) -> (i: usize)
        ensures
            i == self.spec_index(),
            i < THEME_CATALOG_LEN,
    {
        proof {
            use_type_invariant(self);
        }
        self.index
    }

    /// The theme's display name, which is also what the configuration file
    /// stores for it.
    pub fn name(&self) -> (s: String)
        ensures
            s@ == spec_theme_name(self.spec_index() as int),
            spec_find_theme(s@, 0) == Some(self.spec_index()),
    {
        let i = self.index();
        proof {
            lemma_find_own_name(i as nat);
        }
        theme_name_at(i)
    }
}

/// The first catalog position at or after `from` whose theme is called
/// `name`.
pub open spec fn spec_find_theme(name: Seq<char>, from: nat) -> Option<nat>
    decreases THEME_CATALOG_LEN - from,
{
    if from >= THEME_CATALOG_LEN {
        None
    } else if spec_theme_name(from as int) == name {
        Some(from)
    } else {
        spec_find_theme(name, from + 1)
    }
}

/// The catalog theme whose display name is exactly `name`.
pub fn theme_from_name(name: &str) -> (r: Option<ThemeId>)
    ensures
        match r {
            Some(t) => spec_find_theme(name@, 0) == Some(t.spec_index()),
            None => spec_find_theme(name@, 0) is None,
        },
{
    let count = theme_count();
    let target = name.to_owned();
    let mut i: usize = 0;
    while i < count
        invariant
            count == THEME_CATALOG_LEN,
            target@ == name@,
            i <= count,
            spec_find_theme(name@, 0) == spec_find_theme(name@, i as nat),
        decreases count - i,
    {
        let candidate = theme_name_at(i);
        if candidate == target {
            return Some(ThemeId { index: i });
        }
        i = i + 1;
    }
    None
}

/// Looking up a theme's own name finds that theme.
pub proof fn lemma_find_own_name(i: nat)
    requires
        i < THEME_CATALOG_LEN,
    ensures
        spec_find_theme(spec_theme_name(i as int), 0) == Some(i),
{
    lemma_theme_catalog_facts();
    lemma_find_from(i, 0);
}

proof fn lemma_find_from(i: nat, from: nat)
    requires
        theme_catalog_facts(),
        i < THEME_CATALOG_LEN,
        from <= i,
    ensures
        spec_find_theme(spec_theme_name(i as int), from) == Some(i),
    decreases i - from,
{
    if from < i {
        assert(spec_theme_name(from as int) != spec_theme_name(i as int));
        lemma_find_from(i, from + 1);
    }
}

} // verus!
