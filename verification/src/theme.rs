//! Which of the colour themes is in use.
use vstd::prelude::*;

verus! {

/// The names of the themes, in cycling order.
pub open spec fn theme_names() -> Seq<Seq<char>> {
    seq!["Catppuccin Mocha"@, "Tokyo Night"@, "Dracula"@, "Gruvbox Dark"@, "Nord"@]
}

/// Number of themes.
pub const THEME_COUNT: usize = 5;

/// The theme in use: an index below `THEME_COUNT`.
#[derive(Debug, Clone, Copy)]
pub struct ThemeIndex {
    index: usize,
}

impl ThemeIndex {
    #[verifier::type_invariant]
    spec fn in_range(self) -> bool {
        self.index < THEME_COUNT
    }

    /// The index of the theme.
    pub closed spec fn spec_index(self) -> nat {
        self.index as nat
    }

    /// The first theme.
    pub fn first() -> (r: ThemeIndex)
        ensures
            r.spec_index() == 0,
    {
        ThemeIndex { index: 0 }
    }
}

/// The names of the themes, in cycling order.
pub fn names() -> (r: Vec<&'static str>)
    ensures
        r@.map_values(|s: &str| s@) == theme_names(),
{
    let mut r: Vec<&'static str> = Vec::new();
    r.push("Catppuccin Mocha");
    r.push("Tokyo Night");
    r.push("Dracula");
    r.push("Gruvbox Dark");
    r.push("Nord");
    assert(r@.map_values(|s: &str| s@) =~= theme_names());
    r
}

/// The index of the theme in use.
pub fn current_index(theme: &ThemeIndex) -> (r: usize)
    ensures
        r == theme.spec_index(),
        r < THEME_COUNT,
{
    proof {
        use_type_invariant(theme);
    }
    theme.index
}

/// The name of the theme in use.
pub fn current_name(theme: &ThemeIndex) -> (r: &'static str)
    ensures
        r@ == theme_names()[theme.spec_index() as int],
{
    let i = current_index(theme);
    if i == 0 {
        "Catppuccin Mocha"
    } else if i == 1 {
        "Tokyo Night"
    } else if i == 2 {
        "Dracula"
    } else if i == 3 {
        "Gruvbox Dark"
    } else {
        "Nord"
    }
}

/// Switches to theme `index`, taken modulo the number of themes.
pub fn set_theme(theme: &mut ThemeIndex, index: usize)
    ensures
        final(theme).spec_index() == index % THEME_COUNT,
{
    *theme = ThemeIndex { index: index % THEME_COUNT };
}

/// Switches to the next theme, from the last back to the first.
pub fn cycle_theme(theme: &mut ThemeIndex)
    ensures
        final(theme).spec_index() == (old(theme).spec_index() + 1) % (THEME_COUNT as nat),
{
    let next = (current_index(theme) + 1) % THEME_COUNT;
    set_theme(theme, next);
}

/// Number of themes.
pub fn theme_count() -> (r: usize)
    ensures
        r == THEME_COUNT,
{
    THEME_COUNT
}

} // verus!
