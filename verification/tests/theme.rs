use apogee::app_state::AppState;
use apogee::theme::{Theme, ThemeMode};

#[test]
fn theme_mode_names() {
    assert_eq!(ThemeMode::Light.name(), "Light");
    assert_eq!(ThemeMode::Dark.name(), "Dark");
    assert_eq!(ThemeMode::Night.name(), "Night");
}

#[test]
fn light_theme_colours() {
    let t = Theme::light();
    assert_eq!(t.mode, ThemeMode::Light);
    assert_eq!(t.name, "Light");
    assert_eq!(t.background, 0xffffff);
    assert_eq!(t.text, 0x09090b);
    assert_eq!(t.text_muted, 0x71717a);
}

#[test]
fn dark_theme_colours() {
    let t = Theme::dark();
    assert_eq!(t.mode, ThemeMode::Dark);
    assert_eq!(t.name, "Dark");
    assert_eq!(t.background, 0x18181b);
    assert_eq!(t.text, 0xf4f4f5);
    assert_eq!(t.text_muted, 0xa1a1aa);
}

#[test]
fn night_theme_colours() {
    let t = Theme::night();
    assert_eq!(t.mode, ThemeMode::Night);
    assert_eq!(t.name, "Night");
    assert_eq!(t.background, 0x000000);
    assert_eq!(t.text, 0xfafafa);
    assert_eq!(t.text_muted, 0x85858e);
}

#[test]
fn for_mode_picks_the_builtin_theme_named_after_the_mode() {
    for mode in [ThemeMode::Light, ThemeMode::Dark, ThemeMode::Night] {
        let t = Theme::for_mode(mode);
        assert_eq!(t.mode, mode);
        assert_eq!(t.name, mode.name());
    }
    assert_eq!(Theme::for_mode(ThemeMode::Dark).background, Theme::dark().background);
    assert_eq!(Theme::for_mode(ThemeMode::Night).text_muted, Theme::night().text_muted);
    assert_eq!(Theme::for_mode(ThemeMode::Light).text, Theme::light().text);
}

#[test]
fn app_state_new() {
    let _state: AppState = AppState::new();
}

