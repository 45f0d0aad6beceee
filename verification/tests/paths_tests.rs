use moldy::config::{config_path_in, get_config_path};
use moldy::paths::{expand_path, expand_path_with};
use moldy::text::{is_white_space_char, trim_white_space};
use std::path::PathBuf;

#[test]
fn test_expand_path_tilde() {
    let path = PathBuf::from(expand_path("~/projects"));
    assert!(path.starts_with(dirs::home_dir().unwrap()));
}

#[test]
fn test_expand_path_absolute() {
    let path = PathBuf::from(expand_path("/absolute/path"));
    assert_eq!(path, PathBuf::from("/absolute/path"));
}

#[test]
fn tilde_of_another_user_is_kept() {
    assert_eq!(expand_path("~bob/x"), "~bob/x");
    assert_eq!(expand_path("relative/~"), "relative/~");
}

#[test]
fn lone_tilde_is_the_home_directory() {
    let home = dirs::home_dir().unwrap();
    assert_eq!(PathBuf::from(expand_path("~")), home);
    assert_eq!(PathBuf::from(expand_path("~/a/b")), home.join("a/b"));
}

#[test]
fn config_path_lies_under_the_home_directory() {
    assert_eq!(config_path_in("/home/user"), "/home/user/.config/moldy/config.toml");
    assert_eq!(config_path_in("/home/user/"), "/home/user/.config/moldy/config.toml");
    let expected = dirs::home_dir().unwrap().join(".config").join("moldy").join("config.toml");
    assert_eq!(PathBuf::from(get_config_path().unwrap()), expected);
}

#[test]
fn expansion_with_a_given_home() {
    let home = Some("/home/u".to_string());
    assert_eq!(expand_path_with("~/projects", home.clone()), "/home/u/projects");
    assert_eq!(expand_path_with("~", home.clone()), "/home/u");
    assert_eq!(expand_path_with("~bob/x", home.clone()), "~bob/x");
    assert_eq!(expand_path_with("/abs/~", home), "/abs/~");
    assert_eq!(expand_path_with("~/projects", None), "~/projects");
}

#[test]
fn trimming_matches_std() {
    for s in ["", "  ", "a", "  a b  ", "\t\ny\r\n", "\u{3000}x\u{00A0}", "\u{200B}x", "x\u{2028}"] {
        assert_eq!(trim_white_space(s), s.trim());
    }
    for c in ['\u{0}', ' ', '\t', '\u{85}', '\u{A0}', '\u{1680}', '\u{2000}', '\u{200A}', '\u{200B}', '\u{202F}', '\u{205F}', '\u{3000}', 'a', '\u{FEFF}'] {
        assert_eq!(is_white_space_char(c), c.is_whitespace());
    }
}
