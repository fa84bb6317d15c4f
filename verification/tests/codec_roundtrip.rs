use mangsh::codec::{parse_config, serialize_config, ParseError};
use mangsh::config::Config;
use mangsh::theme::{all_themes, Theme};

#[test]
fn serializer_writes_canonical_entry() {
    let text = serialize_config(&Config {
        theme: Some(Theme::Mango),
    });
    assert_eq!(text, "theme = \"mango\"\n");
    let text = serialize_config(&Config {
        theme: Some(Theme::GruvboxDark),
    });
    assert_eq!(text, "theme = \"gruvbox-dark\"\n");
    let text = serialize_config(&Config { theme: None });
    assert_eq!(text, "");
}

#[test]
fn round_trip_holds_for_every_theme() {
    for t in all_themes() {
        let c = Config { theme: Some(t) };
        let back = parse_config(&serialize_config(&c));
        assert_eq!(back, Ok(c));
    }
}

#[test]
fn empty_text_parses_to_no_theme() {
    assert_eq!(parse_config(""), Ok(Config { theme: None }));
    assert_eq!(parse_config("\n\n"), Ok(Config { theme: None }));
}

#[test]
fn legacy_aliases_yield_canonical_theme() {
    let canonical = parse_config("theme = \"gruvbox-dark\"\n");
    let alias = parse_config("theme = \"gruvbox\"\n");
    assert_eq!(alias, canonical);
    assert_eq!(
        alias,
        Ok(Config {
            theme: Some(Theme::GruvboxDark)
        })
    );

    let canonical = parse_config("theme = \"catppuccin\"\n");
    let alias = parse_config("theme = \"catpuccin\"\n");
    assert_eq!(alias, canonical);
    assert_eq!(
        alias,
        Ok(Config {
            theme: Some(Theme::Catppuccin)
        })
    );
}

#[test]
fn comments_blanks_and_foreign_keys_are_ignored() {
    let text = "# the shell's preferences\n\nrefresh = 50\ntheme = \"matrix\"\n";
    assert_eq!(
        parse_config(text),
        Ok(Config {
            theme: Some(Theme::Matrix)
        })
    );
}

#[test]
fn whitespace_around_entry_is_tolerated() {
    assert_eq!(
        parse_config("  theme   =   \"night\"  \n"),
        Ok(Config {
            theme: Some(Theme::Night)
        })
    );
    assert_eq!(
        parse_config("theme=\"light\""),
        Ok(Config {
            theme: Some(Theme::Light)
        })
    );
}

#[test]
fn unknown_theme_name_is_rejected() {
    assert_eq!(
        parse_config("theme = \"sepia\"\n"),
        Err(ParseError::UnknownTheme)
    );
}

#[test]
fn unquoted_or_broken_value_is_rejected() {
    assert_eq!(parse_config("theme = mango\n"), Err(ParseError::Malformed));
    assert_eq!(parse_config("theme = \"mango\n"), Err(ParseError::Malformed));
    assert_eq!(
        parse_config("theme = \"man\"go\"\n"),
        Err(ParseError::Malformed)
    );
    assert_eq!(parse_config("theme = \"\n"), Err(ParseError::Malformed));
}

#[test]
fn line_without_separator_is_rejected() {
    assert_eq!(parse_config("just words\n"), Err(ParseError::Malformed));
}

#[test]
fn duplicate_theme_entry_is_rejected() {
    assert_eq!(
        parse_config("theme = \"mango\"\ntheme = \"dark\"\n"),
        Err(ParseError::DuplicateTheme)
    );
}

#[test]
fn error_messages_are_non_empty() {
    for e in [
        ParseError::Malformed,
        ParseError::UnknownTheme,
        ParseError::DuplicateTheme,
    ] {
        assert!(!e.message().is_empty());
    }
}
