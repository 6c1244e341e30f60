use webdriver_manager::version::{
    find_keyed_value, find_metadata_version, find_version_token, has_version_look,
};

#[test]
fn version_in_browser_output() {
    assert_eq!(
        find_version_token("Google Chrome 138.0.7204.158 \n"),
        Some("138.0.7204.158".to_string())
    );
    assert_eq!(find_version_token("Mozilla Firefox 128.0.3"), Some("128.0.3".to_string()));
    assert_eq!(find_version_token("Chromium 120.0.1.1 snap"), Some("120.0.1.1".to_string()));
}

#[test]
fn version_token_needs_digit_and_dot() {
    assert_eq!(find_version_token("v1.2 3 1.2"), Some("1.2".to_string()));
    assert_eq!(find_version_token("12 x.y 3.4 5.6"), Some("3.4".to_string()));
    assert_eq!(find_version_token("1."), Some("1.".to_string()));
    assert_eq!(find_version_token("Chrome 138"), None);
    assert_eq!(find_version_token(".5 a.1"), None);
    assert_eq!(find_version_token(""), None);
    assert_eq!(find_version_token("  \t\n"), None);
    assert_eq!(find_version_token("\u{0661}.2 7.1"), Some("7.1".to_string()));
}

#[test]
fn version_token_is_split_at_any_whitespace() {
    assert_eq!(find_version_token("a\u{a0}1.2\u{3000}b"), Some("1.2".to_string()));
    assert_eq!(find_version_token("a\t9.8\r\nb"), Some("9.8".to_string()));
    assert_eq!(find_version_token("x1.2"), None);
}

#[test]
fn version_token_is_what_std_finds() {
    for text in ["Google Chrome 138.0.7204.158 ", " 1.2", "a 1 b. 2.c", "no version", "7.7"] {
        let expected = text
            .split_whitespace()
            .find(|s| s.chars().next().map_or(false, |c| c.is_ascii_digit()) && s.contains('.'))
            .map(|s| s.to_string());
        assert_eq!(find_version_token(text), expected);
    }
}

#[test]
fn the_look_of_a_version() {
    assert!(has_version_look("138.0.7204.158"));
    assert!(has_version_look("1."));
    assert!(has_version_look("130.0a1"));
    assert!(has_version_look("1 .2"));
    assert!(!has_version_look(""));
    assert!(!has_version_look("138"));
    assert!(!has_version_look(".5"));
    assert!(!has_version_look("v1.2"));
    assert!(!has_version_look(" 1.2"));
    assert!(!has_version_look("\u{0661}.2"));
}

#[test]
fn a_version_token_has_the_look_of_a_version() {
    for text in ["Google Chrome 138.0.7204.158 ", "a 1 b. 2.c", "7.7", "x 1. y"] {
        let version = find_version_token(text).unwrap();
        assert!(has_version_look(&version));
    }
}

#[test]
fn recorded_version_must_look_like_one() {
    assert_eq!(find_metadata_version("[App]\r\nVersion=128.0.3\r\n"), Some("128.0.3".to_string()));
    assert_eq!(find_metadata_version("Version=130.0a1"), Some("130.0a1".to_string()));
    assert_eq!(find_metadata_version("Version=1.2=x\n"), Some("1.2".to_string()));
    assert_eq!(find_metadata_version("Version=\n"), None);
    assert_eq!(find_metadata_version("Version=beta.1\n"), None);
    assert_eq!(find_metadata_version("Version=128\n"), None);
    assert_eq!(find_metadata_version("Version=x\nVersion=1.2\n"), None);
    assert_eq!(find_metadata_version("Name=Firefox\n"), None);
    assert_eq!(find_metadata_version(""), None);
}

#[test]
fn version_in_metadata() {
    let text = "[App]\r\nVendor=Mozilla\r\nName=Firefox\r\nVersion=128.0.3\r\nBuildID=2024\r\n";
    assert_eq!(find_keyed_value(text, "Version="), Some("128.0.3".to_string()));
    assert_eq!(find_keyed_value("Version=1.2\nVersion=3.4", "Version="), Some("1.2".to_string()));
    assert_eq!(find_keyed_value("Version=1.2", "Version="), Some("1.2".to_string()));
}

#[test]
fn metadata_value_ends_at_the_next_equals_sign() {
    assert_eq!(find_keyed_value("Version=1.2=beta\n", "Version="), Some("1.2".to_string()));
    assert_eq!(find_keyed_value("Version==1\n", "Version="), Some(String::new()));
    assert_eq!(find_keyed_value("Version=\n", "Version="), Some(String::new()));
}

#[test]
fn metadata_key_stands_at_the_start_of_a_line() {
    assert_eq!(find_keyed_value(" Version=1.2\n", "Version="), None);
    assert_eq!(find_keyed_value("MinVersion=1.2\n", "Version="), None);
    assert_eq!(find_keyed_value("version=1.2\n", "Version="), None);
    assert_eq!(find_keyed_value("Version\n=1.2\n", "Version="), None);
    assert_eq!(find_keyed_value("", "Version="), None);
    assert_eq!(find_keyed_value("\n\n", "Version="), None);
    assert_eq!(find_keyed_value("a\n\nVersion=9.1", "Version="), Some("9.1".to_string()));
}

#[test]
fn only_a_carriage_return_before_a_newline_is_dropped() {
    assert_eq!(find_keyed_value("Version=1.2\r", "Version="), Some("1.2\r".to_string()));
    assert_eq!(find_keyed_value("Version=1.2\r\n", "Version="), Some("1.2".to_string()));
    assert_eq!(find_keyed_value("Version=1.2\r\r\n", "Version="), Some("1.2\r".to_string()));
    assert_eq!(find_keyed_value("Version=\r\n", "Version="), Some(String::new()));
    assert_eq!(find_keyed_value("Version\r\n", "Version\r"), None);
}

#[test]
fn metadata_value_is_what_std_finds() {
    for text in [
        "Version=1.2\r\nX=1",
        "A=1\nVersion=7=8\n",
        "Version=1.2\r",
        "nothing here",
        "\nVersion=\n",
        "Version=3\n\n",
    ] {
        let expected = text
            .lines()
            .find(|line| line.starts_with("Version="))
            .and_then(|line| line.split('=').nth(1))
            .map(|s| s.to_string());
        assert_eq!(find_keyed_value(text, "Version="), expected, "{:?}", text);
    }
}
