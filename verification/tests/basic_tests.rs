use loginit::config::{Config, ExporterEndpoint, LevelInner, LogPath, RotationKind};
use loginit::paths::derived_error_path;

#[test]
fn defaults_are_never_and_info() {
    assert_eq!(RotationKind::default(), RotationKind::Never);
    assert_eq!(LevelInner::default(), LevelInner::Info);
    let c = Config::default();
    assert!(c.log_path.is_none());
    assert!(c.log_error_path.is_none());
    assert_eq!(c.rotation, RotationKind::Never);
    assert!(c.level.is_none());
}

#[test]
fn endpoint_renders_host_colon_port() {
    let ep = ExporterEndpoint { port: 80, host: String::from("a") };
    assert_eq!(ep.get_host(), "a:80");
}

#[test]
fn endpoint_renders_multi_digit_port() {
    let ep = ExporterEndpoint { port: 12345, host: String::from("collector.example") };
    assert_eq!(ep.get_host(), "collector.example:12345");
    let zero = ExporterEndpoint { port: 0, host: String::from("h") };
    assert_eq!(zero.get_host(), "h:0");
    let max = ExporterEndpoint { port: 65535, host: String::from("h") };
    assert_eq!(max.get_host(), "h:65535");
}

#[test]
fn severity_order_and_admission() {
    assert!(LevelInner::Error.at_least(LevelInner::Warn));
    assert!(LevelInner::Warn.at_least(LevelInner::Warn));
    assert!(!LevelInner::Trace.at_least(LevelInner::Debug));
    assert!(LevelInner::Warn.admits(LevelInner::Error));
    assert!(!LevelInner::Warn.admits(LevelInner::Info));
    assert!(LevelInner::Trace.admits(LevelInner::Debug));
}

#[test]
fn severity_names_are_lower_case() {
    assert_eq!(LevelInner::Trace.name(), "trace");
    assert_eq!(LevelInner::Debug.name(), "debug");
    assert_eq!(LevelInner::Info.name(), "info");
    assert_eq!(LevelInner::Warn.name(), "warn");
    assert_eq!(LevelInner::Error.name(), "error");
}

#[test]
fn build_path_with_directory() {
    let lp = Config::build_path(&String::from("logs/app.log"));
    assert_eq!(lp.directory, "logs");
    assert_eq!(lp.filename, "app.log");
}

#[test]
fn build_path_nested_absolute() {
    let lp = Config::build_path(&String::from("/var/log/app.log"));
    assert_eq!(lp.directory, "/var/log");
    assert_eq!(lp.filename, "app.log");
}

#[test]
fn build_path_without_parent() {
    let lp = Config::build_path(&String::from("app.log"));
    assert_eq!(lp.directory, "");
    assert_eq!(lp.filename, "app.log");
}

#[test]
fn build_path_ignores_trailing_separators() {
    let lp = Config::build_path(&String::from("logs/"));
    assert_eq!(lp.directory, "");
    assert_eq!(lp.filename, "logs");
    let deep = Config::build_path(&String::from("/usr/bin/"));
    assert_eq!(deep.directory, "/usr");
    assert_eq!(deep.filename, "bin");
}

#[test]
fn build_path_directly_under_root() {
    let lp = Config::build_path(&String::from("/app.log"));
    assert_eq!(lp.directory, "/");
    assert_eq!(lp.filename, "app.log");
}

#[test]
fn build_path_without_filename_component() {
    // A final `..` (or a root, or an empty path) has no file name
    // component: the whole path string is used as the file name.
    let up = Config::build_path(&String::from("a/.."));
    assert_eq!(up.directory, "a");
    assert_eq!(up.filename, "a/..");
    let root = Config::build_path(&String::from("/"));
    assert_eq!(root.directory, "");
    assert_eq!(root.filename, "/");
    let empty = Config::build_path(&String::from(""));
    assert_eq!(empty.directory, "");
    assert_eq!(empty.filename, "");
}

#[test]
fn build_path_matches_std_path_semantics() {
    let cases = [
        "logs/app.log",
        "app.log",
        "/var/log/app.log",
        "logs/",
        "logs//",
        "/app.log",
        "//app.log",
        "a/..",
        "x/../y",
        "/usr/bin/",
        "a//b",
        "a/./b",
        "./foo",
        ".//foo",
        "foo/.",
        "a/b/.",
        "/a/./",
        ".",
        "./",
        "././",
        "..",
        "..//",
        "/",
        "//",
        "/.",
        "/..",
        "",
        "./..",
        "../.",
        "a/../",
        "/a/..",
        "//.",
        "x//.",
        "...",
        "a/...",
        ".hidden",
        "a/.hidden",
        "///x",
        "//x/y",
        "//./x",
    ];
    for p in cases {
        let lp = Config::build_path(&String::from(p));
        let std_path = std::path::Path::new(p);
        let expect_dir =
            std_path.parent().unwrap_or(std::path::Path::new("")).display().to_string();
        let expect_file =
            std_path.file_name().unwrap_or(std_path.as_os_str()).to_string_lossy().to_string();
        assert_eq!(lp.directory, expect_dir, "directory of {:?}", p);
        assert_eq!(lp.filename, expect_file, "filename of {:?}", p);
    }
}

#[test]
fn log_path_accessors() {
    let c = Config {
        log_path: Some(String::from("logs/app.log")),
        log_error_path: None,
        rotation: RotationKind::Never,
        level: None,
    };
    let lp = c.log_path().expect("a primary path is configured");
    assert_eq!(lp.directory, "logs");
    assert_eq!(lp.filename, "app.log");
    assert!(c.log_error_path().is_none());

    let none = Config::default();
    assert!(none.log_path().is_none());
}

#[test]
fn build_path_handles_multibyte_characters() {
    let lp = Config::build_path(&String::from("täst/ünï.log"));
    assert_eq!(lp.directory, "täst");
    assert_eq!(lp.filename, "ünï.log");
}

#[test]
fn decimal_rendering_is_exact() {
    assert_eq!(loginit::digits::u16_to_dec(0), "0");
    assert_eq!(loginit::digits::u16_to_dec(7), "7");
    assert_eq!(loginit::digits::u16_to_dec(10), "10");
    assert_eq!(loginit::digits::u16_to_dec(65535), "65535");
}

#[test]
fn error_path_derived_from_primary() {
    let primary = LogPath { directory: String::from("logs"), filename: String::from("app.log") };
    let err = derived_error_path(&primary);
    assert_eq!(err.directory, "logs");
    assert_eq!(err.filename, "error_app.log");
}
