use mangsh::config::{build_load_result, default_config_path, Config, ReadOutcome};
use mangsh::theme::Theme;

#[test]
fn no_location_falls_back_to_defaults_with_advisory() {
    let r = build_load_result(None, ReadOutcome::Missing);
    assert_eq!(r.config, Config { theme: None });
    assert_eq!(r.path, None);
    assert_eq!(
        r.error,
        Some("No config directory available; using defaults.".to_string())
    );
}

#[test]
fn missing_file_falls_back_to_defaults_with_advisory() {
    let r = build_load_result(
        Some("/home/u/.config/mangsh/config.toml".to_string()),
        ReadOutcome::Missing,
    );
    assert_eq!(r.config, Config { theme: None });
    assert_eq!(
        r.path,
        Some("/home/u/.config/mangsh/config.toml".to_string())
    );
    assert_eq!(r.error, Some("Config not found; using defaults.".to_string()));
}

#[test]
fn unreadable_file_falls_back_to_defaults_with_advisory() {
    let r = build_load_result(
        Some("/p/config.toml".to_string()),
        ReadOutcome::Unreadable("permission denied".to_string()),
    );
    assert_eq!(r.config, Config { theme: None });
    assert_eq!(
        r.error,
        Some("Unable to read config: permission denied".to_string())
    );
}

#[test]
fn malformed_file_falls_back_to_defaults_with_advisory() {
    let r = build_load_result(
        Some("/p/config.toml".to_string()),
        ReadOutcome::Content("theme = broken".to_string()),
    );
    assert_eq!(r.config, Config { theme: None });
    assert_eq!(
        r.error,
        Some("Unable to parse config: malformed entry".to_string())
    );
}

#[test]
fn valid_file_loads_silently() {
    let r = build_load_result(
        Some("/p/config.toml".to_string()),
        ReadOutcome::Content("theme = \"forest\"\n".to_string()),
    );
    assert_eq!(
        r.config,
        Config {
            theme: Some(Theme::Forest)
        }
    );
    assert_eq!(r.path, Some("/p/config.toml".to_string()));
    assert_eq!(r.error, None);
}

#[test]
fn every_failure_keeps_the_record_usable() {
    let probes = [
        (None, ReadOutcome::Missing),
        (Some("/p/c.toml".to_string()), ReadOutcome::Missing),
        (
            Some("/p/c.toml".to_string()),
            ReadOutcome::Unreadable("io".to_string()),
        ),
        (
            Some("/p/c.toml".to_string()),
            ReadOutcome::Content("theme = \"no-such\"".to_string()),
        ),
    ];
    for (path, probe) in probes {
        let r = build_load_result(path, probe);
        // usable record, non-empty advisory
        assert_eq!(r.config, Config { theme: None });
        let advisory = r.error.expect("failure must leave an advisory");
        assert!(!advisory.is_empty());
    }
}

#[test]
fn resolved_location_ends_with_fixed_subpath() {
    if let Some(p) = default_config_path() {
        assert!(p.ends_with("/mangsh/config.toml"));
        assert!(p.len() >= "/mangsh/config.toml".len());
    }
}
