use shapac::models::AppPreference;
use shapac::preferences::preferences_from_rows;
use shapac::preferences::validate_theme;
use shapac::Preferences;

fn row(key: &str, value: &str) -> AppPreference {
    AppPreference {
        key: key.to_string(),
        value: value.to_string(),
        created_at: None,
        updated_at: None,
    }
}

#[test]
fn default_theme_is_system() {
    let prefs = Preferences::default();
    assert_eq!(prefs.theme, "system");
}

#[test]
fn no_rows_keep_the_default_theme() {
    let prefs = preferences_from_rows(&Vec::new());
    assert_eq!(prefs.theme, "system");
}

#[test]
fn theme_row_sets_the_theme() {
    let prefs = preferences_from_rows(&vec![row("theme", "dark")]);
    assert_eq!(prefs.theme, "dark");
}

#[test]
fn unknown_keys_are_ignored() {
    let prefs = preferences_from_rows(&vec![row("font", "mono"), row("zoom", "1.5")]);
    assert_eq!(prefs.theme, "system");
}

#[test]
fn last_theme_row_wins() {
    let rows = vec![row("theme", "dark"), row("font", "mono"), row("theme", "light")];
    let prefs = preferences_from_rows(&rows);
    assert_eq!(prefs.theme, "light");
}

#[test]
fn validate_theme_accepts_the_three_names() {
    assert_eq!(validate_theme(&"light".to_string()), Ok(()));
    assert_eq!(validate_theme(&"dark".to_string()), Ok(()));
    assert_eq!(validate_theme(&"system".to_string()), Ok(()));
}

#[test]
fn validate_theme_rejects_anything_else() {
    let expected = "Invalid theme value. Must be 'light', 'dark', or 'system'";
    assert_eq!(validate_theme(&"solarized".to_string()), Err(expected.to_string()));
    assert_eq!(validate_theme(&"".to_string()), Err(expected.to_string()));
    assert_eq!(validate_theme(&"Light".to_string()), Err(expected.to_string()));
}
