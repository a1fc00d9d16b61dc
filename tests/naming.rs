use wallow::paths::{
    converted_file_name, extension_of, file_name_of, is_engine_file, join_path, path_is_absolute,
};
use wallow::source::unsplash::parse_resolution;
use wallow::text::{has_substring, lines, parse_u32, trimmed};

#[test]
fn converted_name_keeps_prefix_once() {
    assert_eq!(
        converted_file_name("wallow-wallhaven-abcd.jpg", "dracula"),
        "wallow-dracula-wallhaven-abcd.jpg"
    );
}

#[test]
fn converted_name_adds_prefix_to_foreign_file() {
    assert_eq!(converted_file_name("photo.png", "nord"), "wallow-nord-photo.png");
}

#[test]
fn engine_files_are_recognised() {
    assert!(is_engine_file("wallow-unsplash-x.jpg"));
    assert!(!is_engine_file("wallpaper.jpg"));
    assert!(!is_engine_file("wallow"));
}

#[test]
fn join_follows_unix_rules() {
    assert_eq!(join_path("/home/u", "Pictures"), "/home/u/Pictures");
    assert_eq!(join_path("/home/u/", "Pictures"), "/home/u/Pictures");
    assert_eq!(join_path("/home/u", "/etc"), "/etc");
    assert_eq!(join_path("", "a"), "a");
    assert!(path_is_absolute("/x"));
    assert!(!path_is_absolute("x/y"));
}

#[test]
fn file_name_matches_path_semantics() {
    assert_eq!(file_name_of("/a/b/c.jpg"), Some("c.jpg".to_string()));
    assert_eq!(file_name_of("a/b/"), Some("b".to_string()));
    assert_eq!(file_name_of("a/b/."), Some("b".to_string()));
    assert_eq!(file_name_of("a/.."), None);
    assert_eq!(file_name_of("/"), None);
    assert_eq!(file_name_of(""), None);
    assert_eq!(file_name_of("plain"), Some("plain".to_string()));
}

#[test]
fn extension_matches_path_semantics() {
    assert_eq!(extension_of("a.jpg"), Some("jpg".to_string()));
    assert_eq!(extension_of("a.tar.gz"), Some("gz".to_string()));
    assert_eq!(extension_of(".hidden"), None);
    assert_eq!(extension_of("noext"), None);
    assert_eq!(extension_of(".."), None);
    assert_eq!(extension_of("a."), Some(String::new()));
}

#[test]
fn numbers_parse_as_u32() {
    assert_eq!(parse_u32("3840"), Some(3840));
    assert_eq!(parse_u32("+7"), Some(7));
    assert_eq!(parse_u32("4294967295"), Some(4294967295));
    assert_eq!(parse_u32("4294967296"), None);
    assert_eq!(parse_u32(""), None);
    assert_eq!(parse_u32("+"), None);
    assert_eq!(parse_u32("-1"), None);
    assert_eq!(parse_u32("12a"), None);
}

#[test]
fn resolution_parses_width_and_height() {
    assert_eq!(parse_resolution("3840x2160"), (3840, 2160));
    assert_eq!(parse_resolution("1920x"), (1920, 0));
    assert_eq!(parse_resolution("axb"), (0, 0));
    assert_eq!(parse_resolution("1920"), (0, 0));
    assert_eq!(parse_resolution("10x20x30"), (10, 0));
}

#[test]
fn lines_and_trim_follow_std() {
    assert_eq!(lines("a\r\nb\n\nc"), vec!["a", "b", "", "c"]);
    assert_eq!(lines("x\n"), vec!["x"]);
    assert_eq!(lines(""), Vec::<String>::new());
    assert_eq!(lines("y\r"), vec!["y\r"]);
    assert_eq!(trimmed("  /p/q.jpg \n"), "/p/q.jpg");
    assert_eq!(trimmed("\u{3000}x\t"), "x");
    assert!(has_substring("0 8 * * * /bin/wallow schedule --run", "schedule"));
    assert!(!has_substring("abc", "abcd"));
}
