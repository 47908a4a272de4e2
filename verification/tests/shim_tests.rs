use govm::shim::{
    create_all_shims, create_shim, ensure_current, ensure_shims, force_regenerate, go_binaries,
    needs_update, ShimFile,
};

fn found(name: &str, content: Option<&str>) -> ShimFile {
    ShimFile { name: name.to_string(), content: content.map(|c| c.to_string()) }
}

#[test]
fn test_create_shim_creates_file() {
    let shim = create_shim("go", "/usr/local/bin/govm", "/tmp/shims");
    assert_eq!(shim.path, "/tmp/shims/go");
}

#[test]
fn test_create_shim_content() {
    let shim = create_shim("go", "/usr/local/bin/govm", "/tmp/shims");
    let content = shim.content;
    assert!(content.starts_with("#!/bin/sh"), "Shim should start with shebang");
    assert!(content.contains("/usr/local/bin/govm"), "Shim should contain govm path");
    assert!(content.contains("exec"), "Shim should contain exec command");
    assert!(content.contains("\"go\""), "Shim should contain binary name");
}

#[test]
fn test_create_shim_executable() {
    let shim = create_shim("go", "/usr/local/bin/govm", "/tmp/shims");
    assert!(shim.mode & 0o111 != 0, "Shim should be executable");
    assert_eq!(shim.mode, 0o755);
}

#[test]
fn test_create_all_shims() {
    let shims = create_all_shims("/tmp/shims", "/usr/local/bin/govm");
    assert_eq!(shims.len(), 2);
    assert_eq!(shims[0].path, "/tmp/shims/go");
    assert_eq!(shims[1].path, "/tmp/shims/gofmt");
}

#[test]
fn test_create_shim_for_gofmt() {
    let shim = create_shim("gofmt", "/usr/local/bin/govm", "/tmp/shims");
    assert!(shim.content.contains("\"gofmt\""), "Shim should contain gofmt");
}

#[test]
fn test_ensure_shims_creates_missing() {
    let shims = ensure_shims("/tmp/shims", "/usr/local/bin/govm", &vec![]);
    assert_eq!(shims.len(), 2);
    assert_eq!(shims[0].path, "/tmp/shims/go");
    assert_eq!(shims[1].path, "/tmp/shims/gofmt");
}

#[test]
fn test_ensure_shims_updates_outdated() {
    let observed = vec![
        found("go", Some("#!/bin/sh\nexec /wrong/path/govm exec go \"$@\"\n")),
        found("gofmt", None),
    ];
    let shims = ensure_shims("/tmp/shims", "/usr/local/bin/govm", &observed);
    assert_eq!(shims.len(), 2);
    assert_eq!(shims[0].path, "/tmp/shims/go");
    assert!(!shims[0].content.contains("/wrong/path/govm"), "Outdated shim should be replaced");
    assert!(shims[0].content.contains("/usr/local/bin/govm"));
}

#[test]
fn shim_text_is_exact() {
    let shim = create_shim("go", "/opt/govm", "/home/u/.govm/shims/");
    assert_eq!(shim.path, "/home/u/.govm/shims/go");
    assert_eq!(
        shim.content,
        "#!/bin/sh\n# Shim created by govm - DO NOT EDIT\n# This shim intercepts calls to 'go' and delegates to the appropriate Go version\n\nexec \"/opt/govm\" exec \"go\" \"$@\"\n"
    );
}

#[test]
fn ensure_twice_writes_on_the_first_call_only() {
    let first = ensure_shims("/s", "/usr/local/bin/govm", &vec![]);
    assert_eq!(first.len(), 2);
    let observed = vec![
        found("go", Some(first[0].content.as_str())),
        found("gofmt", Some(first[1].content.as_str())),
    ];
    let second = ensure_shims("/s", "/usr/local/bin/govm", &observed);
    assert!(second.is_empty());
}

#[test]
fn shim_of_another_manager_is_stale() {
    let old = create_shim("go", "/old/bin/govm", "/s");
    let observed = vec![found("go", Some(old.content.as_str())), found("gofmt", None)];
    let shims = ensure_shims("/s", "/new/bin/govm", &observed);
    assert_eq!(shims.len(), 2);
    assert!(shims[0].content.contains("\"/new/bin/govm\""));
    assert!(needs_update(&Some(old.content.clone()), "/new/bin/govm"));
    assert!(!needs_update(&Some(old.content.clone()), "/old/bin/govm"));
    assert!(!needs_update(&Some(old.content), "/old/bin"));
    assert!(needs_update(&None, "/old/bin/govm"));
}

#[test]
fn only_stale_shims_are_written() {
    let current = create_shim("gofmt", "/bin/govm", "/s");
    let observed = vec![found("gofmt", Some(current.content.as_str()))];
    let shims = ensure_shims("/s", "/bin/govm", &observed);
    assert_eq!(shims.len(), 1);
    assert_eq!(shims[0].path, "/s/go");
}

#[test]
fn first_entry_of_a_name_counts() {
    let current = create_shim("go", "/bin/govm", "/s");
    let names = vec!["go".to_string()];
    let stale_first = vec![found("go", None), found("go", Some(current.content.as_str()))];
    assert_eq!(ensure_current("/s", "/bin/govm", &names, &stale_first).len(), 1);
    let current_first = vec![found("go", Some(current.content.as_str())), found("go", None)];
    assert!(ensure_current("/s", "/bin/govm", &names, &current_first).is_empty());
}

#[test]
fn force_regenerate_writes_all() {
    let names = vec!["a".to_string(), "b".to_string(), "c".to_string()];
    let shims = force_regenerate("/s", "/bin/govm", &names);
    assert_eq!(shims.len(), 3);
    assert_eq!(shims[2].path, "/s/c");
    assert!(shims[1].content.contains("exec \"/bin/govm\" exec \"b\" \"$@\""));
    assert_eq!(go_binaries(), vec!["go".to_string(), "gofmt".to_string()]);
}
