use nanowhisper::paths::{data_dir_for, DataDirError, HomeDir};
use nanowhisper::paths::data_dir_in;
use nanowhisper::paths::path_style;
use nanowhisper::text::{
    is_white_space_char, join_path, path_style_of, same_text, trimmed, trimmed_without_trailing,
    PathStyle,
};

#[test]
fn trims_like_str_trim() {
    for s in ["", "   ", "abc", "  abc  ", "\t\n a b \r\n", "\u{85}x\u{a0}", "\u{200b}x", "\u{3000}\u{2029}y\u{205f}"] {
        assert_eq!(trimmed(s), s.trim(), "input {:?}", s);
    }
}

#[test]
fn white_space_matches_char_is_whitespace() {
    for u in 0u32..0x3100 {
        if let Some(c) = char::from_u32(u) {
            assert_eq!(is_white_space_char(c), c.is_whitespace(), "U+{:04X}", u);
        }
    }
}

#[test]
fn strips_trailing_after_trim() {
    for s in ["", "/", " // ", "a/b/", "a/b", " a/b/ / ", "/a"] {
        assert_eq!(
            trimmed_without_trailing(s, '/'),
            s.trim().trim_end_matches('/'),
            "input {:?}",
            s
        );
    }
}

#[test]
fn same_text_compares_characters() {
    assert!(same_text("", ""));
    assert!(same_text("kimi", "kimi"));
    assert!(!same_text("kimi", "Kimi"));
    assert!(!same_text("kim", "kimi"));
    assert!(!same_text("é", "e"));
}

#[test]
fn joins_like_path_join() {
    for base in ["", "/", "/home/u", "/home/u/", "rel", "a//"] {
        let expected = std::path::Path::new(base).join("settings.json");
        assert_eq!(join_path(base, "settings.json", PathStyle::Unix), expected.to_str().unwrap(), "base {:?}", base);
    }
}

#[test]
fn data_dir_inside_home() {
    assert_eq!(data_dir_in("/home/alice", PathStyle::Unix), "/home/alice/.nanowhisper");
    assert_eq!(data_dir_in("/root/", PathStyle::Unix), "/root/.nanowhisper");
}

#[test]
fn data_dir_from_home_lookup() {
    assert_eq!(data_dir_for(HomeDir::Found("/home/bob".to_string()), PathStyle::Unix), Ok("/home/bob/.nanowhisper".to_string()));
    assert_eq!(data_dir_for(HomeDir::Missing, PathStyle::Unix), Err(DataDirError::NoHome));
    assert_eq!(data_dir_for(HomeDir::NotUnicode, PathStyle::Windows), Err(DataDirError::NotUnicode));
}

#[test]
fn joins_like_windows_path_join() {
    assert_eq!(data_dir_in("C:\\Users\\u", PathStyle::Windows), "C:\\Users\\u\\.nanowhisper");
    assert_eq!(data_dir_in("C:\\Users\\u\\", PathStyle::Windows), "C:\\Users\\u\\.nanowhisper");
    assert_eq!(data_dir_in("C:/Users/u/", PathStyle::Windows), "C:/Users/u/.nanowhisper");
    assert_eq!(data_dir_in("C:", PathStyle::Windows), "C:.nanowhisper");
    assert_eq!(data_dir_in("", PathStyle::Windows), ".nanowhisper");
    // On Unix a backslash is an ordinary character.
    assert_eq!(data_dir_in("a\\", PathStyle::Unix), "a\\/.nanowhisper");
    assert_eq!(data_dir_in("C:", PathStyle::Unix), "C:/.nanowhisper");
}

#[test]
fn platform_style() {
    assert_eq!(path_style_of('\\'), PathStyle::Windows);
    assert_eq!(path_style_of('/'), PathStyle::Unix);
    assert_eq!(path_style(), path_style_of(std::path::MAIN_SEPARATOR));
}
