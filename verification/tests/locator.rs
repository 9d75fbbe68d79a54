use shapac::locator::first_line_of;
use shapac::locator::installed_from_probe;
use shapac::locator::locate_outcome;
use shapac::locator::not_found_message;
use shapac::locator::trim_whitespace;

const REMEDIATION: &str = "sqlpackage is not installed or not in your system PATH.\nPlease install sqlpackage:\n- macOS/Linux: Download from https://aka.ms/sqlpackage-linux or install via dotnet tool:\ndotnet tool install -g Microsoft.SqlPackage\n- Windows: Download from https://aka.ms/sqlpackage-windows\nAfter installation, ensure it's in your system PATH.";

#[test]
fn successful_search_returns_trimmed_path() {
    let r = locate_outcome(true, true, "  /usr/local/bin/sqlpackage\n");
    assert_eq!(r, Ok("/usr/local/bin/sqlpackage".to_string()));
}

#[test]
fn multi_line_search_output_yields_first_path() {
    let r = locate_outcome(true, true, "C:\\a\\sqlpackage.exe\r\nC:\\b\\sqlpackage.exe\r\n");
    assert_eq!(r, Ok("C:\\a\\sqlpackage.exe".to_string()));
    let unix = locate_outcome(true, true, "/usr/bin/sqlpackage\n/opt/sqlpackage/sqlpackage\n");
    assert_eq!(unix, Ok("/usr/bin/sqlpackage".to_string()));
}

#[test]
fn empty_search_output_is_not_found() {
    let r = locate_outcome(true, true, "");
    assert_eq!(r, Err(REMEDIATION.to_string()));
}

#[test]
fn blank_search_output_is_not_found() {
    let r = locate_outcome(true, true, " \t\r\n");
    assert_eq!(r, Err(REMEDIATION.to_string()));
}

#[test]
fn failed_search_exit_is_not_found() {
    let r = locate_outcome(true, false, "/usr/local/bin/sqlpackage\n");
    assert_eq!(r, Err(REMEDIATION.to_string()));
}

#[test]
fn unspawnable_search_is_not_found() {
    let r = locate_outcome(false, false, "");
    assert_eq!(r, Err(REMEDIATION.to_string()));
}

#[test]
fn remediation_names_both_install_channels() {
    let msg = not_found_message();
    assert_eq!(msg, REMEDIATION);
    assert!(msg.contains("macOS/Linux"));
    assert!(msg.contains("Windows"));
    assert!(msg.lines().count() > 1);
}

#[test]
fn unicode_blank_search_output_is_not_found() {
    // form feed, NEL, NBSP, ideographic space: all White_Space
    let r = locate_outcome(true, true, "\u{c}\u{85}\u{a0}\u{3000}");
    assert_eq!(r, Err(REMEDIATION.to_string()));
}

#[test]
fn trim_removes_surrounding_whitespace_only() {
    assert_eq!(trim_whitespace("  a path with spaces \t\n"), "a path with spaces");
    assert_eq!(trim_whitespace(""), "");
    assert_eq!(trim_whitespace(" \n\t\r"), "");
    assert_eq!(trim_whitespace("untouched"), "untouched");
    assert_eq!(trim_whitespace("\nC:\\tools\\sqlpackage.exe\r\n"), "C:\\tools\\sqlpackage.exe");
}

#[test]
fn trim_matches_std_trim_on_unicode_whitespace() {
    let samples = [
        "\u{c}path\u{b}",
        "\u{a0}\u{1680}x y\u{2028}\u{2029}",
        "\u{2000}\u{200a}mid\u{202f}\u{205f}\u{3000}",
        "\u{85}lone",
        "no-trim\u{200b}",  // zero-width space is not White_Space
    ];
    for s in samples {
        assert_eq!(trim_whitespace(s), s.trim());
    }
}

#[test]
fn first_line_stops_at_the_first_break() {
    assert_eq!(first_line_of("a\nb\nc"), "a");
    assert_eq!(first_line_of("a\r\nb"), "a");
    assert_eq!(first_line_of("single"), "single");
    assert_eq!(first_line_of(""), "");
    assert_eq!(first_line_of("\nstarts with break"), "");
}

#[test]
fn probe_decision_is_spawned_and_exit_zero() {
    assert!(installed_from_probe(true, true));
    assert!(!installed_from_probe(true, false));
    assert!(!installed_from_probe(false, false));
    assert!(!installed_from_probe(false, true));
}
