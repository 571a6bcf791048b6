use agent_tools::paths::{is_separator, is_within, split_components, Platform};
use std::path::Path;

fn parts_on(path: &str, platform: Platform) -> Vec<String> {
    let chars: Vec<char> = path.chars().collect();
    split_components(&chars, platform).iter().map(|c| c.iter().collect()).collect()
}

fn parts(path: &str) -> Vec<String> {
    parts_on(path, Platform::Posix)
}

fn within(dir: &str, root: &str) -> bool {
    is_within(dir, root, Platform::Posix)
}

const PATHS: [&str; 24] = [
    "",
    "/",
    "//",
    ".",
    "./",
    "..",
    "a",
    "a/",
    "a/b",
    "a//b/",
    "a/./b",
    "./a/b",
    "../a",
    "/tmp",
    "/tmp/ws",
    "/tmp/ws/",
    "/tmp/ws/sub/dir",
    "/tmp/wsx",
    "/tmp/ws/../etc",
    "/etc",
    "tmp/ws",
    "/tmp/./ws/.",
    ".hidden/a",
    "/tmp/ws/.env",
];

#[test]
fn components_are_split_the_posix_way() {
    assert_eq!(parts(""), Vec::<String>::new());
    assert_eq!(parts("/"), vec!["/"]);
    assert_eq!(parts("/tmp/ws"), vec!["/", "tmp", "ws"]);
    assert_eq!(parts("/tmp//ws/"), vec!["/", "tmp", "ws"]);
    assert_eq!(parts("/tmp/./ws/."), vec!["/", "tmp", "ws"]);
    assert_eq!(parts("a/b"), vec!["a", "b"]);
    assert_eq!(parts("./a/./b"), vec![".", "a", "b"]);
    assert_eq!(parts("."), vec!["."]);
    assert_eq!(parts("../a/.."), vec!["..", "a", ".."]);
    assert_eq!(parts(".hidden/a"), vec![".hidden", "a"]);
}

#[test]
fn components_agree_with_the_standard_library() {
    for path in PATHS {
        let expected: Vec<String> =
            Path::new(path).components().map(|c| c.as_os_str().to_string_lossy().into_owned()).collect();
        assert_eq!(parts(path), expected, "{path:?}");
    }
}

#[test]
fn within_agrees_with_the_standard_library() {
    for dir in PATHS {
        for root in PATHS {
            assert_eq!(within(dir, root), Path::new(dir).starts_with(Path::new(root)), "{dir:?} {root:?}");
        }
    }
}

#[test]
fn the_root_itself_is_within() {
    for path in PATHS {
        assert!(within(path, path), "{path:?}");
    }
}

#[test]
fn what_is_nested_is_within() {
    for root in PATHS {
        for rest in ["", "a", "a/b/", "..", "./x", "/x"] {
            let dir = format!("{root}/{rest}");
            assert!(within(&dir, root), "{dir:?} {root:?}");
        }
    }
}

#[test]
fn what_is_outside_is_not_within() {
    assert!(!within("/etc", "/tmp/ws"));
    assert!(!within("/tmp", "/tmp/ws"));
    assert!(!within("/tmp/wsx", "/tmp/ws"));
    assert!(!within("tmp/ws", "/tmp/ws"));
    assert!(!within("/", "/tmp/ws"));
    assert!(!within("", "/tmp/ws"));
}

#[test]
fn everything_is_within_the_empty_path() {
    for path in PATHS {
        assert!(within(path, ""));
    }
}

#[test]
fn the_separators_of_each_platform() {
    assert!(is_separator(Platform::Posix, '/'));
    assert!(!is_separator(Platform::Posix, '\\'));
    assert!(is_separator(Platform::Windows, '/'));
    assert!(is_separator(Platform::Windows, '\\'));
    assert!(!is_separator(Platform::Windows, ':'));
}

#[test]
fn a_backslash_is_part_of_a_name_on_posix() {
    assert_eq!(parts("/tmp/a\\b"), vec!["/", "tmp", "a\\b"]);
    assert!(!within("/tmp/ws\\sub", "/tmp/ws"));
}

#[test]
fn windows_paths_are_split_at_either_separator() {
    assert_eq!(parts_on("C:\\Users\\u\\ws", Platform::Windows), vec!["C:", "Users", "u", "ws"]);
    assert_eq!(parts_on("C:/Users\\u/ws\\", Platform::Windows), vec!["C:", "Users", "u", "ws"]);
    assert_eq!(
        parts_on("\\\\?\\C:\\ws\\.\\sub", Platform::Windows),
        vec!["/", "?", "C:", "ws", "sub"]
    );
    assert_eq!(parts_on(".\\a\\..", Platform::Windows), vec![".", "a", ".."]);
    assert_eq!(parts_on("\\ws", Platform::Windows), vec!["/", "ws"]);
}

#[test]
fn within_on_windows() {
    let root = "\\\\?\\C:\\Users\\u\\ws";
    assert!(is_within(root, root, Platform::Windows));
    assert!(is_within("\\\\?\\C:\\Users\\u\\ws\\sub\\dir", root, Platform::Windows));
    assert!(is_within("C:\\ws\\sub", "C:\\ws", Platform::Windows));
    assert!(is_within("C:\\ws/sub", "C:/ws\\", Platform::Windows));
    assert!(!is_within("\\\\?\\C:\\Windows", root, Platform::Windows));
    assert!(!is_within("C:\\wsx", "C:\\ws", Platform::Windows));
    assert!(!is_within("D:\\ws\\sub", "C:\\ws", Platform::Windows));
    assert!(!is_within("c:\\ws\\sub", "C:\\ws", Platform::Windows));
}

#[test]
fn the_platforms_agree_where_there_is_no_backslash() {
    for dir in PATHS {
        for root in PATHS {
            assert_eq!(is_within(dir, root, Platform::Windows), is_within(dir, root, Platform::Posix));
        }
    }
}
