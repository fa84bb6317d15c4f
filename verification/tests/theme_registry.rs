use mangsh::app::{App, InputEvent};
use mangsh::config::{Config, LoadedConfig};
use mangsh::theme::{all_themes, theme_from_name, Theme};

#[test]
fn registry_order_is_the_fixed_one() {
    assert_eq!(
        all_themes(),
        vec![
            Theme::Mango,
            Theme::Forest,
            Theme::Night,
            Theme::GruvboxDark,
            Theme::GruvboxLight,
            Theme::Catppuccin,
            Theme::Light,
            Theme::Dark,
            Theme::Matrix,
        ]
    );
}

#[test]
fn every_theme_has_a_label() {
    let labels: Vec<&str> = all_themes().into_iter().map(|t| t.label()).collect();
    assert_eq!(
        labels,
        vec![
            "Mango",
            "Forest",
            "Night",
            "Gruvbox Dark",
            "Gruvbox Light",
            "Catppuccin",
            "Light",
            "Dark",
            "Matrix",
        ]
    );
}

#[test]
fn default_theme_is_mango() {
    assert_eq!(Theme::default(), Theme::Mango);
    assert_eq!(Config { theme: None }.effective_theme(), Theme::Mango);
    assert_eq!(
        Config {
            theme: Some(Theme::Dark)
        }
        .effective_theme(),
        Theme::Dark
    );
}

#[test]
fn canonical_names_resolve_to_their_theme() {
    for t in all_themes() {
        assert_eq!(theme_from_name(t.name()), Some(t));
    }
}

#[test]
fn aliases_resolve_to_canonical_themes() {
    assert_eq!(theme_from_name("gruvbox"), Some(Theme::GruvboxDark));
    assert_eq!(theme_from_name("catpuccin"), Some(Theme::Catppuccin));
    assert_eq!(theme_from_name("chartreuse"), None);
    assert_eq!(theme_from_name(""), None);
}

#[test]
fn full_cycle_returns_to_start() {
    // Nine forward steps on the configuration screen: back at the start.
    let mut app = App::new(LoadedConfig {
        config: Config {
            theme: Some(Theme::Catppuccin),
        },
        path: None,
        error: None,
    });
    app.handle_event(InputEvent::Confirm);
    app.handle_event(InputEvent::OpenConfig);
    for _ in 0..all_themes().len() {
        app.handle_event(InputEvent::NextTheme);
    }
    assert_eq!(app.theme, Theme::Catppuccin);

    for _ in 0..all_themes().len() {
        app.handle_event(InputEvent::PrevTheme);
    }
    assert_eq!(app.theme, Theme::Catppuccin);
}

#[test]
fn next_then_prev_is_identity_from_every_theme() {
    for t in all_themes() {
        let mut app = App::new(LoadedConfig {
            config: Config { theme: Some(t) },
            path: None,
            error: None,
        });
        app.next_theme();
        app.previous_theme();
        assert_eq!(app.theme, t);
        app.previous_theme();
        app.next_theme();
        assert_eq!(app.theme, t);
    }
}
