//! The theme registry: a closed enumeration of visual themes with a fixed
//! cyclic order, a default member, a display label per member, and the
//! canonical names and legacy aliases used by the configuration file.

use vstd::prelude::*;

use crate::textscan::str_eq;
use vstd::arithmetic::div_mod::{lemma_add_mod_noop, lemma_mod_add_multiples_vanish, lemma_mod_multiples_vanish, lemma_small_mod};

verus! {

/// A visual theme. The set is closed: every member has a position in the
/// registry order, a display label and a canonical file name.
#[derive(Debug, Clone, Copy, PartialEq, Eq, Structural)]
pub enum Theme {
    Mango,
    GruvboxDark,
    GruvboxLight,
    Catppuccin,
    Light,
    Dark,
    Matrix,
    Forest,
    Night,
}

/// The registry order used for cyclic navigation. It is a hand-specified
/// constant, deliberately distinct from declaration order.
pub open spec fn theme_order() -> Seq<Theme> {
    seq![
        Theme::Mango,
        Theme::Forest,
        Theme::Night,
        Theme::GruvboxDark,
        Theme::GruvboxLight,
        Theme::Catppuccin,
        Theme::Light,
        Theme::Dark,
        Theme::Matrix,
    ]
}

/// How many themes are registered.
pub open spec fn theme_count() -> int {
    theme_order().len() as int
}

/// The position of a theme in the registry order.
pub open spec fn theme_index(t: Theme) -> int {
    match t {
        Theme::Mango => 0,
        Theme::Forest => 1,
        Theme::Night => 2,
        Theme::GruvboxDark => 3,
        Theme::GruvboxLight => 4,
        Theme::Catppuccin => 5,
        Theme::Light => 6,
        Theme::Dark => 7,
        Theme::Matrix => 8,
    }
}

/// The theme at a position of the registry order.
pub open spec fn theme_at(i: int) -> Theme {
    if i == 0 {
        Theme::Mango
    } else if i == 1 {
        Theme::Forest
    } else if i == 2 {
        Theme::Night
    } else if i == 3 {
        Theme::GruvboxDark
    } else if i == 4 {
        Theme::GruvboxLight
    } else if i == 5 {
        Theme::Catppuccin
    } else if i == 6 {
        Theme::Light
    } else if i == 7 {
        Theme::Dark
    } else {
        Theme::Matrix
    }
}

/// `theme_at` reads the registry order.
pub proof fn lemma_theme_order_at(i: int)
    requires
        0 <= i < theme_count(),
    ensures
        theme_order()[i] == theme_at(i),
{
}

/// The theme one step forward in the registry order, wrapping at the end.
pub open spec fn cycle_next(t: Theme) -> Theme {
    theme_at((theme_index(t) + 1) % theme_count())
}

/// The theme one step backward in the registry order, wrapping at the start.
pub open spec fn cycle_prev(t: Theme) -> Theme {
    theme_at((theme_index(t) - 1 + theme_count()) % theme_count())
}

/// `cycle_next` applied `n` times.
pub open spec fn cycle_next_n(t: Theme, n: nat) -> Theme
    decreases n,
{
    if n == 0 {
        t
    } else {
        cycle_next(cycle_next_n(t, (n - 1) as nat))
    }
}

/// `cycle_prev` applied `n` times.
pub open spec fn cycle_prev_n(t: Theme, n: nat) -> Theme
    decreases n,
{
    if n == 0 {
        t
    } else {
        cycle_prev(cycle_prev_n(t, (n - 1) as nat))
    }
}

/// Every theme sits at its stated position of the registry order.
pub proof fn lemma_theme_index_consistent(t: Theme)
    ensures
        0 <= theme_index(t) < theme_count(),
        theme_at(theme_index(t)) == t,
        theme_order()[theme_index(t)] == t,
{
    lemma_theme_order_at(theme_index(t));
}

/// All themes, in the registry order.
pub fn all_themes() -> (r: Vec<Theme>)
    ensures
        r@ == theme_order(),
{
    let mut r: Vec<Theme> = Vec::new();
    r.push(Theme::Mango);
    r.push(Theme::Forest);
    r.push(Theme::Night);
    r.push(Theme::GruvboxDark);
    r.push(Theme::GruvboxLight);
    r.push(Theme::Catppuccin);
    r.push(Theme::Light);
    r.push(Theme::Dark);
    r.push(Theme::Matrix);
    proof {
        assert(r@ =~= theme_order());
    }
    r
}

impl Default for Theme {
    /// The designated default theme.
    fn default() -> (r: Theme)
        ensures
            r == Theme::Mango,
    {
        Theme::Mango
    }
}

/// The display label of a theme.
pub open spec fn label_spec(t: Theme) -> Seq<char> {
    match t {
        Theme::Mango => "Mango"@,
        Theme::Forest => "Forest"@,
        Theme::Night => "Night"@,
        Theme::GruvboxDark => "Gruvbox Dark"@,
        Theme::GruvboxLight => "Gruvbox Light"@,
        Theme::Catppuccin => "Catppuccin"@,
        Theme::Light => "Light"@,
        Theme::Dark => "Dark"@,
        Theme::Matrix => "Matrix"@,
    }
}

/// The canonical name of a theme as it is written to the configuration file.
pub open spec fn theme_name_spec(t: Theme) -> Seq<char> {
    match t {
        Theme::Mango => "mango"@,
        Theme::Forest => "forest"@,
        Theme::Night => "night"@,
        Theme::GruvboxDark => "gruvbox-dark"@,
        Theme::GruvboxLight => "gruvbox-light"@,
        Theme::Catppuccin => "catppuccin"@,
        Theme::Light => "light"@,
        Theme::Dark => "dark"@,
        Theme::Matrix => "matrix"@,
    }
}

/// The theme a configuration-file name denotes: each canonical name, plus
/// the recognized legacy aliases, maps to its theme; anything else to `None`.
pub open spec fn theme_from_name_spec(n: Seq<char>) -> Option<Theme> {
    if n == "mango"@ {
        Some(Theme::Mango)
    } else if n == "forest"@ {
        Some(Theme::Forest)
    } else if n == "night"@ {
        Some(Theme::Night)
    } else if n == "gruvbox-dark"@ || n == "gruvbox"@ {
        Some(Theme::GruvboxDark)
    } else if n == "gruvbox-light"@ {
        Some(Theme::GruvboxLight)
    } else if n == "catppuccin"@ || n == "catpuccin"@ {
        Some(Theme::Catppuccin)
    } else if n == "light"@ {
        Some(Theme::Light)
    } else if n == "dark"@ {
        Some(Theme::Dark)
    } else if n == "matrix"@ {
        Some(Theme::Matrix)
    } else {
        None
    }
}

impl Theme {
    /// The display label shown on the configuration screen.
    pub fn label(&self) -> (r: &'static str)
        ensures
            r@ == label_spec(*self),
    {
        match self {
            Theme::Mango => "Mango",
            Theme::Forest => "Forest",
            Theme::Night => "Night",
            Theme::GruvboxDark => "Gruvbox Dark",
            Theme::GruvboxLight => "Gruvbox Light",
            Theme::Catppuccin => "Catppuccin",
            Theme::Light => "Light",
            Theme::Dark => "Dark",
            Theme::Matrix => "Matrix",
        }
    }

    /// The canonical configuration-file name of the theme.
    pub fn name(&self) -> (r: &'static str)
        ensures
            r@ == theme_name_spec(*self),
    {
        match self {
            Theme::Mango => "mango",
            Theme::Forest => "forest",
            Theme::Night => "night",
            Theme::GruvboxDark => "gruvbox-dark",
            Theme::GruvboxLight => "gruvbox-light",
            Theme::Catppuccin => "catppuccin",
            Theme::Light => "light",
            Theme::Dark => "dark",
            Theme::Matrix => "matrix",
        }
    }
}

/// The theme a configuration-file name denotes, or `None` for a name that
/// is neither a canonical name nor a recognized legacy alias.
pub fn theme_from_name(n: &str) -> (r: Option<Theme>)
    ensures
        r == theme_from_name_spec(n@),
{
    if str_eq(n, "mango") {
        Some(Theme::Mango)
    } else if str_eq(n, "forest") {
        Some(Theme::Forest)
    } else if str_eq(n, "night") {
        Some(Theme::Night)
    } else if str_eq(n, "gruvbox-dark") || str_eq(n, "gruvbox") {
        Some(Theme::GruvboxDark)
    } else if str_eq(n, "gruvbox-light") {
        Some(Theme::GruvboxLight)
    } else if str_eq(n, "catppuccin") || str_eq(n, "catpuccin") {
        Some(Theme::Catppuccin)
    } else if str_eq(n, "light") {
        Some(Theme::Light)
    } else if str_eq(n, "dark") {
        Some(Theme::Dark)
    } else if str_eq(n, "matrix") {
        Some(Theme::Matrix)
    } else {
        None
    }
}

/// Advancing by one moves the registry position forward by one, modulo
/// the number of themes.
proof fn lemma_cycle_next_index(t: Theme)
    ensures
        theme_index(cycle_next(t)) == (theme_index(t) + 1) % theme_count(),
{
    assert(theme_count() == 9);
}

/// Retreating by one moves the registry position backward by one, modulo
/// the number of themes.
proof fn lemma_cycle_prev_index(t: Theme)
    ensures
        theme_index(cycle_prev(t)) == (theme_index(t) - 1 + theme_count()) % theme_count(),
{
    assert(theme_count() == 9);
}

/// After `n` forward steps the registry position has advanced by `n`,
/// modulo the number of themes.
proof fn lemma_cycle_next_n_index(t: Theme, n: nat)
    ensures
        theme_index(cycle_next_n(t, n)) == (theme_index(t) + n) % theme_count(),
    decreases n,
{
    assert(theme_count() == 9);
    lemma_theme_index_consistent(t);
    if n == 0 {
        lemma_small_mod(theme_index(t) as nat, 9nat);
    } else {
        lemma_cycle_next_n_index(t, (n - 1) as nat);
        lemma_cycle_next_index(cycle_next_n(t, (n - 1) as nat));
        lemma_small_mod(1nat, 9nat);
        lemma_add_mod_noop(theme_index(t) + n - 1, 1, 9);
    }
}

/// After `n` backward steps the registry position has retreated by `n`:
/// it has advanced by `n` times one-less-than-the-count, modulo the count.
proof fn lemma_cycle_prev_n_index(t: Theme, n: nat)
    ensures
        theme_index(cycle_prev_n(t, n)) == (theme_index(t) + (theme_count() - 1) * n)
            % theme_count(),
    decreases n,
{
    assert(theme_count() == 9);
    lemma_theme_index_consistent(t);
    if n == 0 {
        lemma_small_mod(theme_index(t) as nat, 9nat);
    } else {
        lemma_cycle_prev_n_index(t, (n - 1) as nat);
        lemma_cycle_prev_index(cycle_prev_n(t, (n - 1) as nat));
        lemma_small_mod(8nat, 9nat);
        lemma_add_mod_noop(theme_index(t) + 8 * n - 8, 8, 9);
    }
}

/// Full-cycle law: advancing as many times as there are registered themes
/// returns to the original theme; likewise for retreating.
pub proof fn lemma_theme_full_cycle(t: Theme)
    ensures
        cycle_next_n(t, theme_count() as nat) == t,
        cycle_prev_n(t, theme_count() as nat) == t,
{
    assert(theme_count() == 9);
    lemma_theme_index_consistent(t);
    let i = theme_index(t);
    lemma_cycle_next_n_index(t, 9nat);
    lemma_mod_add_multiples_vanish(i, 9);
    lemma_small_mod(i as nat, 9nat);
    lemma_theme_index_consistent(cycle_next_n(t, 9nat));
    lemma_cycle_prev_n_index(t, 9nat);
    lemma_mod_multiples_vanish(8, i, 9);
    lemma_theme_index_consistent(cycle_prev_n(t, 9nat));
}

} // verus!
