use clean_my_keys::config::{
    config_directory, load_theme_from_config, theme_config_contents, theme_config_path,
};
use clean_my_keys::text::{contains_word, is_unicode_whitespace, trim};
use clean_my_keys::theme::{theme_from_name, ThemeId, FERRA_INDEX, THEME_CATALOG_LEN};

#[test]
fn trim_removes_surrounding_whitespace() {
    assert_eq!(trim("  Dracula\n"), "Dracula");
    assert_eq!(trim("\t\r\n"), "");
    assert_eq!(trim(""), "");
    assert_eq!(trim("Tokyo Night"), "Tokyo Night");
    assert_eq!(trim("\u{2003}Nord\u{3000}"), "Nord");
}

#[test]
fn trim_agrees_with_std() {
    for s in ["", " a ", "a b", "\n\nx\t", "é ", " \u{a0}y\u{a0} "] {
        assert_eq!(trim(s), s.trim());
    }
}

#[test]
fn contains_word_matches_whole_words_only() {
    assert!(contains_word("wheel input audio", "input"));
    assert!(contains_word("input", "input"));
    assert!(contains_word("audio\tinput\n", "input"));
    assert!(!contains_word("inputs wheel", "input"));
    assert!(!contains_word("myinput", "input"));
    assert!(!contains_word("inp", "input"));
    assert!(!contains_word("", "input"));
}

#[test]
fn theme_lookup_by_name() {
    assert_eq!(theme_from_name("Light").map(|t| t.index()), Some(0));
    assert_eq!(theme_from_name("Dracula").map(|t| t.index()), Some(2));
    assert_eq!(theme_from_name("Catppuccin Frappé").map(|t| t.index()), Some(9));
    assert_eq!(theme_from_name("Ferra").map(|t| t.index()), Some(FERRA_INDEX));
    assert!(theme_from_name("ferra").is_none());
    assert!(theme_from_name(" Ferra").is_none());
    assert!(theme_from_name("").is_none());
}

#[test]
fn theme_ids_stay_in_the_catalog() {
    assert!(ThemeId::from_index(THEME_CATALOG_LEN).is_none());
    assert_eq!(ThemeId::from_index(3).map(|t| t.index()), Some(3));
    assert_eq!(ThemeId::ferra().name(), "Ferra");
    assert_eq!(ThemeId::ferra().name(), iced::Theme::Ferra.to_string());
}

#[test]
fn every_theme_name_finds_its_theme() {
    for i in 0..THEME_CATALOG_LEN {
        let t = ThemeId::from_index(i).unwrap();
        assert_eq!(t.name(), iced::Theme::ALL[i].to_string());
        assert_eq!(theme_from_name(&t.name()).map(|f| f.index()), Some(i));
    }
}

#[test]
fn config_directory_prefers_xdg() {
    assert_eq!(
        config_directory(Some("/xdg".to_string()), Some("/home/u".to_string())),
        "/xdg"
    );
    assert_eq!(config_directory(None, Some("/home/u".to_string())), "/home/u/.config");
    assert_eq!(config_directory(None, Some("/home/u/".to_string())), "/home/u/.config");
    assert_eq!(config_directory(None, None), ".config");
}

#[test]
fn theme_config_path_appends_app_dir_and_file() {
    assert_eq!(
        theme_config_path("/home/u/.config"),
        "/home/u/.config/clean-my-keys/theme"
    );
    assert_eq!(theme_config_path(".config"), ".config/clean-my-keys/theme");
    assert_eq!(theme_config_path(""), "clean-my-keys/theme");
}

#[test]
fn theme_loaded_from_config_contents() {
    assert_eq!(load_theme_from_config(Some("Dracula\n")).index(), 2);
    assert_eq!(load_theme_from_config(Some("  Nord  ")).index(), 3);
    assert_eq!(load_theme_from_config(Some("Nonexistent")).index(), FERRA_INDEX);
    assert_eq!(load_theme_from_config(Some("")).index(), FERRA_INDEX);
    assert_eq!(load_theme_from_config(None).index(), FERRA_INDEX);
}

#[test]
fn theme_config_round_trip() {
    for i in 0..THEME_CATALOG_LEN {
        let t = ThemeId::from_index(i).unwrap();
        let saved = theme_config_contents(&t);
        assert_eq!(load_theme_from_config(Some(&saved)), t);
        let with_newline = format!("{saved}\n");
        assert_eq!(load_theme_from_config(Some(&with_newline)), t);
    }
}

#[test]
fn whitespace_agrees_with_std_on_every_char() {
    for c in (0..=0x10FFFFu32).filter_map(char::from_u32) {
        assert_eq!(is_unicode_whitespace(c), c.is_whitespace(), "{:#x}", c as u32);
    }
}
