use mangsh::app::{App, InputEvent, Reaction, SaveOutcome, Screen};
use mangsh::config::{Config, LoadedConfig};
use mangsh::theme::{all_themes, Theme};

fn fresh_app() -> App {
    App::new(LoadedConfig {
        config: Config { theme: None },
        path: None,
        error: None,
    })
}

#[test]
fn new_app_starts_on_title_with_first_tab() {
    let app = fresh_app();
    assert_eq!(app.screen, Screen::Title);
    assert_eq!(app.tabs, vec!["Hosts", "Session"]);
    assert_eq!(app.tab_index, 0);
    assert_eq!(app.theme, Theme::Mango);
}

#[test]
fn quit_from_main_terminates_loop() {
    // Main screen with the second tab selected: the global quit asks the
    // loop to leave and changes nothing.
    let mut app = fresh_app();
    assert_eq!(app.handle_event(InputEvent::Confirm), Reaction::Continue);
    assert_eq!(app.handle_event(InputEvent::NextTab), Reaction::Continue);
    assert_eq!(app.tab_index, 1);
    let r = app.handle_event(InputEvent::Quit);
    assert_eq!(r, Reaction::Exit);
    assert_eq!(app.screen, Screen::Main);
    assert_eq!(app.tab_index, 1);
    assert_eq!(app.theme, Theme::Mango);
}

#[test]
fn quit_is_global_on_every_screen() {
    for setup in 0..4u8 {
        let mut app = fresh_app();
        match setup {
            0 => {}
            1 => {
                app.handle_event(InputEvent::Confirm);
            }
            2 => {
                app.handle_event(InputEvent::Confirm);
                app.handle_event(InputEvent::OpenConfig);
            }
            _ => {
                app.handle_event(InputEvent::OpenMenu);
            }
        }
        assert_eq!(app.handle_event(InputEvent::Quit), Reaction::Exit);
    }
}

#[test]
fn title_confirm_then_tab_round_trip() {
    let mut app = fresh_app();
    app.handle_event(InputEvent::Confirm);
    assert_eq!(app.screen, Screen::Main);
    assert_eq!(app.tab_index, 0);
    app.handle_event(InputEvent::NextTab);
    assert_eq!(app.tab_index, 1);
    app.handle_event(InputEvent::PrevTab);
    assert_eq!(app.tab_index, 0);
}

#[test]
fn tab_navigation_wraps() {
    let mut app = fresh_app();
    app.handle_event(InputEvent::Confirm);
    app.handle_event(InputEvent::NextTab);
    app.handle_event(InputEvent::NextTab);
    assert_eq!(app.tab_index, 0);
    app.handle_event(InputEvent::PrevTab);
    assert_eq!(app.tab_index, 1);
}

#[test]
fn next_theme_on_config_screen_advances_and_requests_persist() {
    // Config screen, current theme at the first registry position: one
    // step forward selects the second theme of the fixed order, mirrored
    // in the record.
    let mut app = fresh_app();
    app.handle_event(InputEvent::Confirm);
    app.handle_event(InputEvent::OpenConfig);
    assert_eq!(app.screen, Screen::Config);
    assert_eq!(app.theme, Theme::Mango);
    let r = app.handle_event(InputEvent::NextTheme);
    assert_eq!(r, Reaction::Persist);
    let order = all_themes();
    assert_eq!(app.theme, order[1]);
    assert_eq!(app.theme, Theme::Forest);
    assert_eq!(app.config.theme, Some(Theme::Forest));
}

#[test]
fn prev_theme_wraps_to_last_of_order() {
    let mut app = fresh_app();
    app.handle_event(InputEvent::Confirm);
    app.handle_event(InputEvent::OpenConfig);
    let r = app.handle_event(InputEvent::PrevTheme);
    assert_eq!(r, Reaction::Persist);
    assert_eq!(app.theme, Theme::Matrix);
    assert_eq!(app.config.theme, Some(Theme::Matrix));
}

#[test]
fn menu_transitions_follow_table() {
    // Title -> Menu -> Main (select-1 resets the tab selection).
    let mut app = fresh_app();
    app.handle_event(InputEvent::OpenMenu);
    assert_eq!(app.screen, Screen::Menu);
    app.handle_event(InputEvent::SelectFirst);
    assert_eq!(app.screen, Screen::Main);
    assert_eq!(app.tab_index, 0);

    // Main -> Menu -> Config.
    app.handle_event(InputEvent::OpenMenu);
    app.handle_event(InputEvent::SelectSecond);
    assert_eq!(app.screen, Screen::Config);

    // Config -> Menu -> Title (cancel).
    app.handle_event(InputEvent::OpenMenu);
    app.handle_event(InputEvent::Cancel);
    assert_eq!(app.screen, Screen::Title);

    // Menu confirm behaves as select-1, open-config as select-2.
    app.handle_event(InputEvent::OpenMenu);
    app.handle_event(InputEvent::Confirm);
    assert_eq!(app.screen, Screen::Main);
    app.handle_event(InputEvent::OpenMenu);
    app.handle_event(InputEvent::OpenConfig);
    assert_eq!(app.screen, Screen::Config);
}

#[test]
fn unlisted_events_are_noops() {
    // A sample of pairs outside the transition table: nothing changes
    // and the loop just goes on.
    let mut app = fresh_app();
    for e in [
        InputEvent::Cancel,
        InputEvent::NextTab,
        InputEvent::NextTheme,
        InputEvent::SelectFirst,
    ] {
        let r = app.handle_event(e);
        assert_eq!(r, Reaction::Continue);
        assert_eq!(app.screen, Screen::Title);
        assert_eq!(app.tab_index, 0);
        assert_eq!(app.theme, Theme::Mango);
    }

    app.handle_event(InputEvent::Confirm);
    for e in [InputEvent::Cancel, InputEvent::NextTheme, InputEvent::PrevTheme] {
        let r = app.handle_event(e);
        assert_eq!(r, Reaction::Continue);
        assert_eq!(app.screen, Screen::Main);
        assert_eq!(app.theme, Theme::Mango);
    }

    app.handle_event(InputEvent::OpenConfig);
    for e in [InputEvent::Confirm, InputEvent::NextTab, InputEvent::Cancel] {
        let r = app.handle_event(e);
        assert_eq!(r, Reaction::Continue);
        assert_eq!(app.screen, Screen::Config);
        assert_eq!(app.theme, Theme::Mango);
    }
}

#[test]
fn set_theme_survives_failed_save() {
    // The in-memory change is never rolled back by a persistence
    // failure, and the failure is surfaced as a non-empty advisory.
    let mut app = fresh_app();
    app.set_theme(Theme::Night);
    app.record_save_outcome(SaveOutcome::Failed("disk full".to_string()));
    assert_eq!(app.theme, Theme::Night);
    assert_eq!(app.config.theme, Some(Theme::Night));
    assert_eq!(
        app.config_error,
        Some("Failed to save config: disk full".to_string())
    );
}

#[test]
fn saved_outcome_records_location_and_clears_advisory() {
    let mut app = fresh_app();
    app.record_save_outcome(SaveOutcome::Failed("once".to_string()));
    assert!(app.config_error.is_some());
    app.set_theme(Theme::Dark);
    app.record_save_outcome(SaveOutcome::Saved("/tmp/config.toml".to_string()));
    assert_eq!(app.theme, Theme::Dark);
    assert_eq!(app.config_path, Some("/tmp/config.toml".to_string()));
    assert_eq!(app.config_error, None);
}

#[test]
fn no_location_keeps_theme_and_warns() {
    // No resolvable configuration directory: the load yields defaults
    // with an advisory, and a later theme change stays in memory with a
    // "not persisted" advisory.
    let loaded = mangsh::config::build_load_result(None, mangsh::config::ReadOutcome::Missing);
    assert_eq!(loaded.config, Config { theme: None });
    assert_eq!(loaded.path, None);
    let advisory = loaded.error.clone().unwrap();
    assert!(!advisory.is_empty());

    let mut app = App::new(loaded);
    app.set_theme(Theme::Forest);
    app.record_save_outcome(SaveOutcome::NoLocation);
    assert_eq!(app.theme, Theme::Forest);
    assert_eq!(app.config.theme, Some(Theme::Forest));
    assert_eq!(
        app.config_error,
        Some("No config directory; theme not persisted.".to_string())
    );
}

#[test]
fn new_app_carries_load_result_over() {
    let app = App::new(LoadedConfig {
        config: Config {
            theme: Some(Theme::Catppuccin),
        },
        path: Some("/home/u/.config/mangsh/config.toml".to_string()),
        error: None,
    });
    assert_eq!(app.theme, Theme::Catppuccin);
    assert_eq!(app.config.theme, Some(Theme::Catppuccin));
    assert_eq!(
        app.config_path,
        Some("/home/u/.config/mangsh/config.toml".to_string())
    );
    assert_eq!(app.config_error, None);
}
