//! The application controller: the screen-navigation state machine, the
//! tab selection, the active theme and the persistence bookkeeping.
//! Transitions are driven by logical input events and are deterministic;
//! the interactive loop, the key decoding, the rendering and the file
//! writing live outside the library. `handle_event` tells the loop what to
//! do next, and `record_save_outcome` takes back what an attempted save
//! yielded — an in-memory theme change is never rolled back by it.

use vstd::arithmetic::div_mod::{lemma_mod_add_multiples_vanish, lemma_mod_self_0, lemma_small_mod};
use vstd::prelude::*;
use vstd::string::StringExecFns;

use crate::config::{Config, LoadedConfig};
use crate::theme::{
    all_themes, cycle_next, cycle_prev, lemma_theme_index_consistent, lemma_theme_order_at,
    theme_at, theme_count, theme_index, theme_order, Theme,
};

verus! {

/// Which top-level view is active.
#[derive(Debug, Clone, Copy, PartialEq, Eq, Structural)]
pub enum Screen {
    Title,
    Main,
    Config,
    Menu,
}

/// A logical input event: an abstracted user intent, decoupled from the
/// physical key that produced it.
#[derive(Debug, Clone, Copy, PartialEq, Eq, Structural)]
pub enum InputEvent {
    Quit,
    Confirm,
    Cancel,
    OpenMenu,
    OpenConfig,
    SelectFirst,
    SelectSecond,
    NextTab,
    PrevTab,
    NextTheme,
    PrevTheme,
}

/// What the interactive loop must do after an event was handled: go on,
/// leave, or first persist the record (the theme just changed) and hand
/// the outcome back through `record_save_outcome`.
#[derive(Debug, Clone, Copy, PartialEq, Eq, Structural)]
pub enum Reaction {
    Continue,
    Exit,
    Persist,
}

/// What an attempted save yielded: the location written, no resolvable
/// location, or the reason the write failed.
#[derive(Debug, PartialEq, Eq)]
pub enum SaveOutcome {
    Saved(String),
    NoLocation,
    Failed(String),
}

/// The view of a save outcome.
pub enum SaveView {
    Saved(Seq<char>),
    NoLocation,
    Failed(Seq<char>),
}

impl View for SaveOutcome {
    type V = SaveView;

    open spec fn view(&self) -> SaveView {
        match self {
            SaveOutcome::Saved(p) => SaveView::Saved(p@),
            SaveOutcome::NoLocation => SaveView::NoLocation,
            SaveOutcome::Failed(m) => SaveView::Failed(m@),
        }
    }
}

/// The controller state: the active screen, the tab titles and selection,
/// the effective theme, the record that mirrors it, and where and how the
/// record last met the file system.
pub struct App {
    pub screen: Screen,
    pub tabs: Vec<&'static str>,
    pub tab_index: usize,
    pub theme: Theme,
    pub config: Config,
    pub config_path: Option<String>,
    pub config_error: Option<String>,
}

/// The view of the controller state.
pub struct AppView {
    pub screen: Screen,
    pub tabs: Seq<Seq<char>>,
    pub tab_index: int,
    pub theme: Theme,
    pub config: Config,
    pub config_path: Option<Seq<char>>,
    pub config_error: Option<Seq<char>>,
}

impl AppView {
    /// Well-formedness: there is at least one tab, and the selection is
    /// within range.
    pub open spec fn wf(self) -> bool {
        self.tabs.len() >= 1 && 0 <= self.tab_index < self.tabs.len()
    }
}

impl View for App {
    type V = AppView;

    open spec fn view(&self) -> AppView {
        AppView {
            screen: self.screen,
            tabs: self.tabs.deep_view(),
            tab_index: self.tab_index as int,
            theme: self.theme,
            config: self.config,
            config_path: match self.config_path {
                Some(p) => Some(p@),
                None => None,
            },
            config_error: match self.config_error {
                Some(e) => Some(e@),
                None => None,
            },
        }
    }
}

/// The advisory recorded when a save found no resolvable location.
pub open spec fn no_save_advisory() -> Seq<char> {
    "No config directory; theme not persisted."@
}

/// The advisory recorded when a save failed, with the reported reason.
pub open spec fn save_failed_advisory(m: Seq<char>) -> Seq<char> {
    "Failed to save config: "@ + m
}

/// The state after the theme is set: the theme itself and its mirror in
/// the record change; nothing else does.
pub open spec fn set_theme_spec(v: AppView, t: Theme) -> AppView {
    AppView { theme: t, config: Config { theme: Some(t) }, ..v }
}

/// The state after a persistence outcome is recorded: a written location
/// is remembered and clears any advisory; a missing location or a failed
/// write leaves an advisory; the theme and the record never change.
pub open spec fn record_save_spec(v: AppView, o: SaveView) -> AppView {
    match o {
        SaveView::Saved(p) => AppView { config_path: Some(p), config_error: None, ..v },
        SaveView::NoLocation => AppView { config_error: Some(no_save_advisory()), ..v },
        SaveView::Failed(m) => AppView { config_error: Some(save_failed_advisory(m)), ..v },
    }
}

/// The tab selection one step forward, wrapping at the end.
pub open spec fn tab_next_spec(v: AppView) -> AppView {
    AppView { tab_index: (v.tab_index + 1) % (v.tabs.len() as int), ..v }
}

/// The tab selection one step backward, wrapping at the start.
pub open spec fn tab_prev_spec(v: AppView) -> AppView {
    AppView {
        tab_index: if v.tab_index == 0 {
            v.tabs.len() - 1
        } else {
            v.tab_index - 1
        },
        ..v
    }
}

/// The next theme in the registry order becomes active, mirrored in the
/// record.
pub open spec fn theme_next_spec(v: AppView) -> AppView {
    set_theme_spec(v, cycle_next(v.theme))
}

/// The previous theme in the registry order becomes active, mirrored in
/// the record.
pub open spec fn theme_prev_spec(v: AppView) -> AppView {
    set_theme_spec(v, cycle_prev(v.theme))
}

/// The transition table: which pairs of screen and event are listed. The
/// global quit rows of the configuration, main and menu screens are
/// listed; everything unlisted is a no-op.
pub open spec fn in_table(s: Screen, e: InputEvent) -> bool {
    match s {
        Screen::Title => e == InputEvent::Confirm || e == InputEvent::OpenMenu,
        Screen::Config => e == InputEvent::OpenMenu || e == InputEvent::Quit || e
            == InputEvent::NextTheme || e == InputEvent::PrevTheme,
        Screen::Main => e == InputEvent::Quit || e == InputEvent::OpenConfig || e
            == InputEvent::OpenMenu || e == InputEvent::NextTab || e == InputEvent::PrevTab,
        Screen::Menu => e == InputEvent::SelectFirst || e == InputEvent::Confirm || e
            == InputEvent::SelectSecond || e == InputEvent::OpenConfig || e == InputEvent::Cancel
            || e == InputEvent::Quit,
    }
}

/// The state after one event: the global quit leaves the state alone (it
/// is a loop-exit signal, not a transition); a listed pair follows the
/// table; an unlisted pair is an explicit no-op.
pub open spec fn step_spec(v: AppView, e: InputEvent) -> AppView {
    if e == InputEvent::Quit {
        v
    } else {
        match v.screen {
            Screen::Title => match e {
                InputEvent::Confirm => AppView { screen: Screen::Main, tab_index: 0, ..v },
                InputEvent::OpenMenu => AppView { screen: Screen::Menu, ..v },
                _ => v,
            },
            Screen::Config => match e {
                InputEvent::OpenMenu => AppView { screen: Screen::Menu, ..v },
                InputEvent::NextTheme => theme_next_spec(v),
                InputEvent::PrevTheme => theme_prev_spec(v),
                _ => v,
            },
            Screen::Main => match e {
                InputEvent::OpenConfig => AppView { screen: Screen::Config, ..v },
                InputEvent::OpenMenu => AppView { screen: Screen::Menu, ..v },
                InputEvent::NextTab => tab_next_spec(v),
                InputEvent::PrevTab => tab_prev_spec(v),
                _ => v,
            },
            Screen::Menu => match e {
                InputEvent::SelectFirst => AppView { screen: Screen::Main, tab_index: 0, ..v },
                InputEvent::Confirm => AppView { screen: Screen::Main, tab_index: 0, ..v },
                InputEvent::SelectSecond => AppView { screen: Screen::Config, ..v },
                InputEvent::OpenConfig => AppView { screen: Screen::Config, ..v },
                InputEvent::Cancel => AppView { screen: Screen::Title, ..v },
                _ => v,
            },
        }
    }
}

/// What the loop does after one event: leave on the global quit, persist
/// after a theme change on the configuration screen, go on otherwise.
pub open spec fn reaction_spec(v: AppView, e: InputEvent) -> Reaction {
    if e == InputEvent::Quit {
        Reaction::Exit
    } else if v.screen == Screen::Config && (e == InputEvent::NextTheme || e
        == InputEvent::PrevTheme) {
        Reaction::Persist
    } else {
        Reaction::Continue
    }
}

impl App {
    /// A fresh controller from what the load produced: on the title
    /// screen, first tab of the fixed tab pair selected, the loaded
    /// record's theme in effect, and the load's location and advisory
    /// carried over.
    pub fn new(loaded: LoadedConfig) -> (r: App)
        ensures
            r@.screen == Screen::Title,
            r@.tabs == seq!["Hosts"@, "Session"@],
            r@.tab_index == 0,
            r@.theme == loaded.config.effective_theme_spec(),
            r@.config == loaded.config,
            r@.config_path == loaded@.path,
            r@.config_error == loaded@.error,
            r@.wf(),
    {
        let theme = loaded.config.effective_theme();
        let mut tabs: Vec<&'static str> = Vec::new();
        tabs.push("Hosts");
        tabs.push("Session");
        proof {
            assert(tabs.deep_view() =~= seq!["Hosts"@, "Session"@]);
        }
        App {
            screen: Screen::Title,
            tabs,
            tab_index: 0,
            theme,
            config: loaded.config,
            config_path: loaded.path,
            config_error: loaded.error,
        }
    }

    /// The tab one step forward, wrapping at the end.
    pub fn next_tab(&mut self)
        requires
            old(self)@.wf(),
        ensures
            final(self)@ == tab_next_spec(old(self)@),
            final(self)@.wf(),
    {
        proof {
            assert(self.tabs.deep_view().len() == self.tabs@.len());
        }
        let count = self.tabs.len();
        self.tab_index = (self.tab_index + 1) % count;
    }

    /// The tab one step backward, wrapping at the start.
    pub fn previous_tab(&mut self)
        requires
            old(self)@.wf(),
        ensures
            final(self)@ == tab_prev_spec(old(self)@),
            final(self)@.wf(),
    {
        proof {
            assert(self.tabs.deep_view().len() == self.tabs@.len());
        }
        if self.tab_index == 0 {
            self.tab_index = self.tabs.len() - 1;
        } else {
            self.tab_index = self.tab_index - 1;
        }
    }

    /// Sets the theme: the in-memory theme and its mirror in the record
    /// change, and nothing else. Persisting the record, and recording
    /// what came of it through `record_save_outcome`, is the loop's next
    /// step; a failure there never rolls this change back.
    pub fn set_theme(&mut self, theme: Theme)
        ensures
            final(self)@ == set_theme_spec(old(self)@, theme),
    {
        self.theme = theme;
        self.config.theme = Some(theme);
    }

    /// Records what the attempted save yielded, exactly as
    /// `record_save_spec` states it: a written location is remembered and
    /// clears any advisory; otherwise an advisory is recorded; the theme
    /// is left exactly as it was.
    pub fn record_save_outcome(&mut self, outcome: SaveOutcome)
        ensures
            final(self)@ == record_save_spec(old(self)@, outcome@),
    {
        match outcome {
            SaveOutcome::Saved(p) => {
                self.config_path = Some(p);
                self.config_error = None;
            },
            SaveOutcome::NoLocation => {
                self.config_error = Some(
                    String::from_str("No config directory; theme not persisted."),
                );
            },
            SaveOutcome::Failed(m) => {
                self.config_error = Some(
                    String::from_str("Failed to save config: ").concat(m.as_str()),
                );
            },
        }
    }

    /// Where a theme stands in the registry order. The scan cannot miss:
    /// the enumeration is closed, so every theme occurs in the order.
    fn theme_position(themes: &Vec<Theme>, t: Theme) -> (r: usize)
        requires
            themes@ == theme_order(),
        ensures
            r as int == theme_index(t),
            (r as int) < themes@.len(),
    {
        proof {
            assert(theme_count() == 9);
        }
        let mut i: usize = 0;
        while i < themes.len()
            invariant
                themes@ == theme_order(),
                0 <= i <= themes@.len(),
                forall|k: int| 0 <= k < i ==> themes@[k] != t,
            decreases themes@.len() - i,
        {
            if themes[i] == t {
                proof {
                    assert(theme_count() == 9);
                    lemma_theme_order_at(i as int);
                    lemma_theme_index_consistent(t);
                    assert(theme_at(i as int) == t);
                    assert(i as int == theme_index(t));
                }
                return i;
            }
            i = i + 1;
        }
        proof {
            lemma_theme_index_consistent(t);
            assert(themes@[theme_index(t)] == t);
            assert(false);
        }
        0
    }

    /// The next theme in the registry order becomes active, mirrored in
    /// the record; the caller persists the record and hands the outcome
    /// to `record_save_outcome`.
    pub fn next_theme(&mut self)
        ensures
            final(self)@ == theme_next_spec(old(self)@),
    {
        let themes = all_themes();
        let pos = Self::theme_position(&themes, self.theme);
        proof {
            assert(theme_count() == 9);
        }
        let next = (pos + 1) % themes.len();
        proof {
            lemma_theme_order_at(next as int);
        }
        let t = themes[next];
        self.set_theme(t);
    }

    /// The previous theme in the registry order becomes active, mirrored
    /// in the record; the caller persists the record and hands the
    /// outcome to `record_save_outcome`.
    pub fn previous_theme(&mut self)
        ensures
            final(self)@ == theme_prev_spec(old(self)@),
    {
        let themes = all_themes();
        let pos = Self::theme_position(&themes, self.theme);
        proof {
            assert(theme_count() == 9);
        }
        let prev = if pos == 0 {
            themes.len() - 1
        } else {
            pos - 1
        };
        proof {
            let i = theme_index(self.theme);
            if pos == 0 {
                assert((i - 1 + theme_count()) % theme_count() == 8);
            } else {
                lemma_small_mod((i - 1) as nat, 9nat);
                lemma_mod_add_multiples_vanish(i - 1, 9);
                assert((i - 1 + theme_count()) % theme_count() == i - 1);
            }
            lemma_theme_order_at(prev as int);
        }
        let t = themes[prev];
        self.set_theme(t);
    }

    /// Handles one logical input event: the global quit is checked before
    /// any screen dispatch; a listed pair follows the transition table;
    /// an unlisted pair changes nothing. The result says what the loop
    /// does next.
    pub fn handle_event(&mut self, event: InputEvent) -> (r: Reaction)
        requires
            old(self)@.wf(),
        ensures
            final(self)@ == step_spec(old(self)@, event),
            r == reaction_spec(old(self)@, event),
            final(self)@.wf(),
    {
        if let InputEvent::Quit = event {
            return Reaction::Exit;
        }
        match self.screen {
            Screen::Title => {
                match event {
                    InputEvent::Confirm => {
                        self.screen = Screen::Main;
                        self.tab_index = 0;
                    },
                    InputEvent::OpenMenu => {
                        self.screen = Screen::Menu;
                    },
                    _ => {},
                }
                Reaction::Continue
            },
            Screen::Config => {
                match event {
                    InputEvent::OpenMenu => {
                        self.screen = Screen::Menu;
                        Reaction::Continue
                    },
                    InputEvent::NextTheme => {
                        self.next_theme();
                        Reaction::Persist
                    },
                    InputEvent::PrevTheme => {
                        self.previous_theme();
                        Reaction::Persist
                    },
                    _ => Reaction::Continue,
                }
            },
            Screen::Main => {
                match event {
                    InputEvent::OpenConfig => {
                        self.screen = Screen::Config;
                        Reaction::Continue
                    },
                    InputEvent::OpenMenu => {
                        self.screen = Screen::Menu;
                        Reaction::Continue
                    },
                    InputEvent::NextTab => {
                        self.next_tab();
                        Reaction::Continue
                    },
                    InputEvent::PrevTab => {
                        self.previous_tab();
                        Reaction::Continue
                    },
                    _ => Reaction::Continue,
                }
            },
            Screen::Menu => {
                match event {
                    InputEvent::SelectFirst | InputEvent::Confirm => {
                        self.screen = Screen::Main;
                        self.tab_index = 0;
                        Reaction::Continue
                    },
                    InputEvent::SelectSecond | InputEvent::OpenConfig => {
                        self.screen = Screen::Config;
                        Reaction::Continue
                    },
                    InputEvent::Cancel => {
                        self.screen = Screen::Title;
                        Reaction::Continue
                    },
                    _ => Reaction::Continue,
                }
            },
        }
    }
}

/// No-op law: an event not listed in the transition table for the current
/// screen leaves the whole state — screen, tab selection, theme, record,
/// location and advisory — unchanged, and never asks the loop to persist.
pub proof fn lemma_untabled_event_is_noop(v: AppView, e: InputEvent)
    requires
        !in_table(v.screen, e),
    ensures
        step_spec(v, e) == v,
        reaction_spec(v, e) != Reaction::Persist,
{
}

/// Tab round-trip law: one step forward then one step backward (or the
/// reverse) returns the state to what it was, whatever the number of
/// tabs.
pub proof fn lemma_tab_round_trip(v: AppView)
    requires
        v.wf(),
    ensures
        tab_prev_spec(tab_next_spec(v)) == v,
        tab_next_spec(tab_prev_spec(v)) == v,
{
    let n = v.tabs.len() as int;
    let i = v.tab_index;
    if i + 1 == n {
        lemma_mod_self_0(n);
    } else {
        lemma_small_mod((i + 1) as nat, n as nat);
    }
    if i == 0 {
        lemma_mod_self_0(n);
    } else {
        lemma_small_mod(i as nat, n as nat);
    }
}

/// Persistence-failure isolation law: setting a theme and then recording
/// a failed (or locationless) save leaves the new theme in effect, keeps
/// it mirrored in the record, and records a non-empty advisory.
pub proof fn lemma_save_failure_keeps_theme(v: AppView, t: Theme, m: Seq<char>)
    ensures
        ({
            let after = record_save_spec(set_theme_spec(v, t), SaveView::Failed(m));
            &&& after.theme == t
            &&& after.config == (Config { theme: Some(t) })
            &&& after.config_error matches Some(a) && a.len() > 0
        }),
        ({
            let after = record_save_spec(set_theme_spec(v, t), SaveView::NoLocation);
            &&& after.theme == t
            &&& after.config == (Config { theme: Some(t) })
            &&& after.config_error matches Some(a) && a.len() > 0
        }),
{
    reveal_strlit("Failed to save config: ");
    reveal_strlit("No config directory; theme not persisted.");
}

} // verus!
