use yep_anywhere_desktop::config::{
    bin_dir, bin_dir_from, bin_dir_in, config_path, config_path_from, config_path_in, data_dir,
    data_dir_from, data_dir_in, AppConfig,
};
use yep_anywhere_desktop::deep_link::{deep_link_to_hash, handle_deep_link};
use yep_anywhere_desktop::text::{
    contains_bytes, decimal_string, find_char, join_path, same_text, starts_with,
};
use yep_anywhere_desktop::tray::{menu_action, TrayAction};

#[test]
fn join_path_cases() {
    assert_eq!(join_path("/home/u", "bin"), "/home/u/bin");
    assert_eq!(join_path("/home/u/", "bin"), "/home/u/bin");
    assert_eq!(join_path("", "bin"), "bin");
    assert_eq!(join_path("/", "bin"), "/bin");
    assert_eq!(join_path("/home/u", "/etc"), "/etc");
    assert_eq!(join_path("/home/u", ""), "/home/u/");
    assert_eq!(join_path("/h\u{e9}", "x"), "/h\u{e9}/x");
}

#[test]
fn decimal_string_values() {
    assert_eq!(decimal_string(0), "0");
    assert_eq!(decimal_string(9), "9");
    assert_eq!(decimal_string(10), "10");
    assert_eq!(decimal_string(8080), "8080");
    assert_eq!(decimal_string(65535), "65535");
    assert_eq!(decimal_string(1000), "1000");
}

#[test]
fn contains_bytes_cases() {
    assert!(contains_bytes(b"hello world", b"lo w"));
    assert!(contains_bytes(b"hello", b""));
    assert!(contains_bytes(b"", b""));
    assert!(contains_bytes(b"hello", b"hello"));
    assert!(contains_bytes(b"hello", b"o"));
    assert!(!contains_bytes(b"hello", b"hello!"));
    assert!(!contains_bytes(b"", b"a"));
    assert!(!contains_bytes(b"aab", b"aba"));
    assert!(contains_bytes(b"aaab", b"aab"));
}

#[test]
fn starts_with_and_same_text() {
    assert!(starts_with("codex-x", "codex-"));
    assert!(starts_with("codex-", "codex-"));
    assert!(starts_with("abc", ""));
    assert!(!starts_with("code", "codex-"));
    assert!(!starts_with("xcodex-", "codex-"));
    assert!(same_text("a", "a"));
    assert!(!same_text("a", "b"));
    assert!(!same_text("a", "ab"));
}

#[test]
fn find_char_positions() {
    assert_eq!(find_char("a?b?c", '?', 0), 1);
    assert_eq!(find_char("a?b?c", '?', 1), 1);
    assert_eq!(find_char("a?b?c", '?', 2), 3);
    assert_eq!(find_char("a?b?c", '?', 4), 5);
    assert_eq!(find_char("a?b?c", '?', 9), 5);
    assert_eq!(find_char("", '?', 0), 0);
    assert_eq!(find_char("\u{e9}?", '?', 0), 1);
}

#[test]
fn deep_link_query_becomes_fragment() {
    assert_eq!(
        deep_link_to_hash("https://yepanywhere.com/open?u=username&p=password&r=relay_url"),
        Some("#u=username&p=password&r=relay_url".to_string())
    );
    assert_eq!(deep_link_to_hash("https://yepanywhere.com/open"), None);
    assert_eq!(deep_link_to_hash("https://yepanywhere.com/open?"), None);
    assert_eq!(deep_link_to_hash(""), None);
    assert_eq!(deep_link_to_hash("?"), None);
    assert_eq!(deep_link_to_hash("a?b?c"), Some("#b".to_string()));
    assert_eq!(deep_link_to_hash("a??c"), None);
    assert_eq!(deep_link_to_hash("?x"), Some("#x".to_string()));
    assert_eq!(deep_link_to_hash("h\u{e9}?\u{e9}=1"), Some("#\u{e9}=1".to_string()));
}

#[test]
fn deep_link_script() {
    assert_eq!(
        handle_deep_link("app://open?u=a"),
        Some("window.location.hash = '#u=a';".to_string())
    );
    assert_eq!(handle_deep_link("app://open"), None);
}

#[test]
fn tray_menu_entries() {
    assert_eq!(menu_action("open"), TrayAction::ShowWindow);
    assert_eq!(menu_action("restart"), TrayAction::RestartServer);
    assert_eq!(menu_action("quit"), TrayAction::Quit);
    assert_eq!(menu_action("Open"), TrayAction::Ignore);
    assert_eq!(menu_action(""), TrayAction::Ignore);
}

#[test]
fn default_config() {
    let cfg = AppConfig::default();
    assert!(!cfg.setup_complete);
    assert!(cfg.agents.is_empty());
    assert_eq!(cfg.port, None);
    assert!(!cfg.start_minimized);
}

#[test]
fn data_directory_layout() {
    assert_eq!(data_dir_in("/home/u"), "/home/u/.yep-anywhere-desktop");
    assert_eq!(config_path_in("/home/u/.yep-anywhere-desktop"), "/home/u/.yep-anywhere-desktop/config.json");
    assert_eq!(bin_dir_in("/home/u/.yep-anywhere-desktop"), "/home/u/.yep-anywhere-desktop/bin");
}

#[test]
fn data_directory_of_this_user() {
    let home = dirs::home_dir().map(|p| p.to_string_lossy().into_owned());
    let expected = home.map(|h| data_dir_in(&h));
    assert_eq!(data_dir(), expected);
    assert_eq!(config_path(), expected.clone().map(|d| config_path_in(&d)));
    assert_eq!(bin_dir(), expected.map(|d| bin_dir_in(&d)));
}

#[test]
fn directories_follow_the_home_directory() {
    let home = Some("/home/u".to_string());
    assert_eq!(data_dir_from(home.clone()), Some("/home/u/.yep-anywhere-desktop".to_string()));
    assert_eq!(
        config_path_from(home.clone()),
        Some("/home/u/.yep-anywhere-desktop/config.json".to_string())
    );
    assert_eq!(bin_dir_from(home), Some("/home/u/.yep-anywhere-desktop/bin".to_string()));
    assert_eq!(data_dir_from(None), None);
    assert_eq!(config_path_from(None), None);
    assert_eq!(bin_dir_from(None), None);
}
