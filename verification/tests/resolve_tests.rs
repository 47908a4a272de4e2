use govm::resolve::{
    find_local_version, get_global_version, get_override_version, locate_scoped_pin, pin_paths,
    resolve, resolve_source, Context, PinFile, SelectionSource,
};

fn pin(path: &str, content: Option<&str>) -> PinFile {
    PinFile { path: path.to_string(), content: content.map(|c| c.to_string()) }
}

fn text(s: &str) -> Option<String> {
    Some(s.to_string())
}

#[test]
fn test_get_global_version_exists() {
    let result = get_global_version(&text("1.22.0\n"));
    assert_eq!(result, Some("1.22.0".to_string()));
}

#[test]
fn test_get_global_version_not_exists() {
    let result = get_global_version(&None);
    assert_eq!(result, None);
}

#[test]
fn test_get_global_version_empty_file() {
    let result = get_global_version(&text(""));
    assert_eq!(result, None);
}

#[test]
fn test_get_global_version_with_whitespace() {
    let result = get_global_version(&text("  1.22.0  \n"));
    assert_eq!(result, Some("1.22.0".to_string()));
}

#[test]
fn test_get_global_version_normalizes() {
    let result = get_global_version(&text("go1.22.0\n"));
    assert_eq!(result, Some("1.22.0".to_string()));
}

#[test]
fn blank_or_bare_prefix_markers_name_no_version() {
    assert_eq!(get_global_version(&text(" \n\t")), None);
    assert_eq!(get_global_version(&text("v\n")), None);
    assert_eq!(get_global_version(&text("go")), None);
}

#[test]
fn resolution_precedence() {
    let mut ctx = Context {
        override_value: text("1.22.0"),
        pins: vec![pin("/work/.go-version", Some("1.21.0\n")), pin("/.go-version", None)],
        global: text("1.20.0\n"),
    };
    assert_eq!(resolve(&ctx), text("1.22.0"));
    assert!(matches!(resolve_source(&ctx), SelectionSource::Override));

    ctx.override_value = None;
    assert_eq!(resolve(&ctx), text("1.21.0"));
    match resolve_source(&ctx) {
        SelectionSource::ScopedPin { path } => assert_eq!(path, "/work/.go-version"),
        other => panic!("unexpected source {:?}", other),
    }

    ctx.pins = vec![pin("/work/.go-version", None), pin("/.go-version", None)];
    assert_eq!(resolve(&ctx), text("1.20.0"));
    assert!(matches!(resolve_source(&ctx), SelectionSource::GlobalDefault));

    ctx.global = None;
    assert_eq!(resolve(&ctx), None);
    assert!(matches!(resolve_source(&ctx), SelectionSource::Unset));
}

#[test]
fn empty_override_does_not_count() {
    let ctx = Context {
        override_value: text(""),
        pins: vec![],
        global: text("1.20.0\n"),
    };
    assert_eq!(resolve(&ctx), text("1.20.0"));
    assert!(matches!(resolve_source(&ctx), SelectionSource::GlobalDefault));
    assert_eq!(get_override_version(&text("v")), None);
    assert_eq!(get_override_version(&text("go1.22.0")), text("1.22.0"));
    assert_eq!(get_override_version(&text(" 1.22.0")), text(" 1.22.0"));
    assert_eq!(get_override_version(&None), None);
}

#[test]
fn pin_two_directories_up_is_found() {
    let pins = vec![
        pin("/a/b/c/.go-version", None),
        pin("/a/b/.go-version", None),
        pin("/a/.go-version", Some("1.19.0\n")),
        pin("/.go-version", Some("1.18.0\n")),
    ];
    assert_eq!(find_local_version(&pins), text("1.19.0"));
    assert_eq!(locate_scoped_pin(&pins), text("/a/.go-version"));
}

#[test]
fn nearer_pin_shadows_farther_pin() {
    let pins = vec![
        pin("/a/b/.go-version", Some("go1.21.0")),
        pin("/a/.go-version", Some("1.19.0\n")),
    ];
    assert_eq!(find_local_version(&pins), text("1.21.0"));
    assert_eq!(locate_scoped_pin(&pins), text("/a/b/.go-version"));
}

#[test]
fn blank_or_unreadable_pin_is_passed_over() {
    let pins = vec![
        pin("/a/b/.go-version", Some("   \n")),
        pin("/a/.go-version", None),
        pin("/.go-version", Some("v1.17\n")),
    ];
    assert_eq!(find_local_version(&pins), text("1.17"));
    assert_eq!(locate_scoped_pin(&pins), text("/.go-version"));
    let none = vec![pin("/a/.go-version", Some("")), pin("/.go-version", None)];
    assert_eq!(find_local_version(&none), None);
    assert_eq!(locate_scoped_pin(&none), None);
    assert_eq!(find_local_version(&vec![]), None);
}

#[test]
fn pins_are_looked_for_on_the_way_up() {
    assert_eq!(
        pin_paths("/a/b/c"),
        vec!["/a/b/c/.go-version", "/a/b/.go-version", "/a/.go-version", "/.go-version"]
    );
    assert_eq!(pin_paths("/"), vec!["/.go-version"]);
    let pins: Vec<PinFile> = pin_paths("/a/b/c")
        .into_iter()
        .map(|path| PinFile {
            content: if path == "/a/.go-version" { Some("1.19.0\n".to_string()) } else { None },
            path,
        })
        .collect();
    assert_eq!(find_local_version(&pins), text("1.19.0"));
    assert_eq!(locate_scoped_pin(&pins), text("/a/.go-version"));
}
