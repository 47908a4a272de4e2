use govm::error::GovmError;
use govm::govm::GoVM;
use govm::plan::{InstallEvent, InstallStep, Snapshot, UninstallPlan, WhichReport};
use govm::registry::DirEntry;
use govm::resolve::{Context, PinFile, SelectionSource};
use govm::shim::{create_shim, ShimFile};
use govm::types::{GoFile, GoVersion};
use govm::version::normalize;

fn manager() -> GoVM {
    GoVM::with_home("/home/u")
}

fn snapshot(installed: &[&str], global: Option<&str>) -> Snapshot {
    Snapshot {
        context: Context {
            override_value: None,
            pins: vec![],
            global: global.map(|g| g.to_string()),
        },
        entries: installed
            .iter()
            .map(|name| DirEntry { name: Some(name.to_string()), is_dir: true })
            .collect(),
    }
}

fn release(version: &str, stable: bool, platforms: &[(&str, &str)]) -> GoVersion {
    GoVersion {
        version: version.to_string(),
        stable,
        files: platforms
            .iter()
            .map(|(os, arch)| GoFile {
                filename: format!("{}.{}-{}.tar.gz", version, os, arch),
                os: os.to_string(),
                arch: arch.to_string(),
                sha256: String::new(),
                size: 1000,
                kind: "archive".to_string(),
            })
            .collect(),
    }
}

#[test]
fn layout_is_exact() {
    let govm = manager();
    assert_eq!(govm.root_dir, "/home/u/.govm");
    assert_eq!(govm.versions_dir, "/home/u/.govm/versions");
    assert_eq!(govm.shims_dir, "/home/u/.govm/shims");
    assert_eq!(govm.global_version_file, "/home/u/.govm/version");
    assert_eq!(govm.get_version_dir("1.21.0"), "/home/u/.govm/versions/1.21.0");
    assert_eq!(
        govm.get_version_bin_path("1.21.0", "gofmt"),
        "/home/u/.govm/versions/1.21.0/bin/gofmt"
    );
}

#[test]
fn new_manager_lives_in_the_home_directory() {
    match GoVM::new() {
        Ok(govm) => {
            assert!(govm.root_dir.ends_with(".govm"));
            assert_eq!(govm.versions_dir, format!("{}/versions", govm.root_dir));
            assert_eq!(govm.shims_dir, format!("{}/shims", govm.root_dir));
            assert_eq!(govm.global_version_file, format!("{}/version", govm.root_dir));
        }
        Err(error) => assert!(matches!(error, GovmError::NoHomeDirectory)),
    }
}

#[test]
fn set_global_version_needs_the_version_installed() {
    let govm = manager();
    let state = snapshot(&["1.21.0"], None);
    let write = govm.set_global_version(&state, "go1.21.0").unwrap();
    assert_eq!(write.path, "/home/u/.govm/version");
    assert_eq!(write.content, "1.21.0\n");
    match govm.set_global_version(&state, "v1.22.0") {
        Err(GovmError::NotInstalled { version }) => assert_eq!(version, "1.22.0"),
        other => panic!("unexpected outcome {:?}", other),
    }
}

#[test]
fn written_marker_reads_back() {
    let govm = manager();
    let state = snapshot(&["1.21.0", "1.22.0rc1"], None);
    for version in ["1.21.0", "v1.22.0rc1"] {
        let write = govm.set_global_version(&state, version).unwrap();
        let after = snapshot(&["1.21.0", "1.22.0rc1"], Some(&write.content));
        assert_eq!(govm.get_global_version(&after), Some(normalize(version)));
        assert_eq!(govm.resolve_version(&after), Some(normalize(version)));
    }
}

#[test]
fn set_local_version_writes_the_pin_of_the_working_directory() {
    let govm = manager();
    let state = snapshot(&["1.21.0"], None);
    let write = govm.set_local_version(&state, "1.21.0", "/work/project").unwrap();
    assert_eq!(write.path, "/work/project/.go-version");
    assert_eq!(write.content, "1.21.0\n");
    assert!(matches!(
        govm.set_local_version(&state, "1.20.0", "/work/project"),
        Err(GovmError::NotInstalled { .. })
    ));
}

#[test]
fn use_version_installs_what_is_missing() {
    let govm = manager();
    let state = snapshot(&["1.21.0"], None);
    let plan = govm.use_version(&state, "v1.22.0", false, "/work");
    assert!(plan.install);
    assert_eq!(plan.version, "1.22.0");
    assert_eq!(plan.marker.path, "/home/u/.govm/version");
    assert_eq!(plan.marker.content, "1.22.0\n");
    let plan = govm.use_version(&state, "1.21.0", true, "/work");
    assert!(!plan.install);
    assert_eq!(plan.marker.path, "/work/.go-version");
    assert_eq!(plan.marker.content, "1.21.0\n");
}

#[test]
fn test_govm_uninstall_nonexistent() {
    let govm = manager();
    let state = snapshot(&[], None);
    match govm.uninstall_version(&state, "99.99.99") {
        UninstallPlan::NotInstalled { version } => assert_eq!(version, "99.99.99"),
        other => panic!("unexpected plan {:?}", other),
    }
}

#[test]
fn uninstalling_the_default_clears_it() {
    let govm = manager();
    let state = snapshot(&["1.21.0", "1.22.0"], Some("1.21.0\n"));
    match govm.uninstall_version(&state, "go1.21.0") {
        UninstallPlan::Remove { version, clear_default, dir } => {
            assert_eq!(version, "1.21.0");
            assert!(clear_default);
            assert_eq!(dir, "/home/u/.govm/versions/1.21.0");
        }
        other => panic!("unexpected plan {:?}", other),
    }
    let after = snapshot(&["1.22.0"], None);
    assert_eq!(govm.resolve_version(&after), None);
    assert!(!govm.is_version_installed(&after, "1.21.0"));
}

#[test]
fn uninstalling_another_version_keeps_the_default() {
    let govm = manager();
    let state = snapshot(&["1.21.0", "1.22.0"], Some("1.21.0\n"));
    match govm.uninstall_version(&state, "1.22.0") {
        UninstallPlan::Remove { version, clear_default, dir } => {
            assert_eq!(version, "1.22.0");
            assert!(!clear_default);
            assert_eq!(dir, "/home/u/.govm/versions/1.22.0");
        }
        other => panic!("unexpected plan {:?}", other),
    }
}

#[test]
fn exec_runs_the_binary_of_the_version_that_applies() {
    let govm = manager();
    let state = snapshot(&["1.21.0"], Some("1.21.0\n"));
    assert_eq!(
        govm.command_path(&state, "go"),
        Some("/home/u/.govm/versions/1.21.0/bin/go".to_string())
    );
    let plan = govm.exec_command(&state, "go", true).unwrap();
    assert_eq!(plan.version, "1.21.0");
    assert_eq!(plan.program, "/home/u/.govm/versions/1.21.0/bin/go");
    assert_eq!(plan.goroot, "/home/u/.govm/versions/1.21.0");
}

#[test]
fn exec_fails_without_a_version() {
    let govm = manager();
    let state = snapshot(&["1.21.0"], None);
    assert!(matches!(govm.exec_command(&state, "go", true), Err(GovmError::NoVersionConfigured)));
    assert_eq!(govm.command_path(&state, "go"), None);
}

#[test]
fn exec_fails_when_the_version_is_not_installed() {
    let govm = manager();
    let state = snapshot(&["1.21.0"], Some("1.22.0\n"));
    for exists in [true, false] {
        match govm.exec_command(&state, "go", exists) {
            Err(GovmError::VersionNotInstalled { version }) => assert_eq!(version, "1.22.0"),
            other => panic!("unexpected outcome {:?}", other),
        }
    }
    assert_eq!(govm.command_path(&state, "go"), None);
}

#[test]
fn exec_fails_when_the_binary_is_missing() {
    let govm = manager();
    let state = snapshot(&["1.21.0"], Some("1.21.0\n"));
    match govm.exec_command(&state, "godoc", false) {
        Err(GovmError::BinaryNotFound { command, version }) => {
            assert_eq!(command, "godoc");
            assert_eq!(version, "1.21.0");
        }
        other => panic!("unexpected outcome {:?}", other),
    }
}

#[test]
fn test_govm_which_no_version() {
    let govm = manager();
    let state = snapshot(&[], None);
    assert!(matches!(govm.which_command(&state, "go", false), WhichReport::NoVersion));
}

#[test]
fn which_reports_each_case() {
    let govm = manager();
    let state = snapshot(&["1.21.0"], Some("1.21.0\n"));
    match govm.which_command(&state, "go", true) {
        WhichReport::Found { path } => assert_eq!(path, "/home/u/.govm/versions/1.21.0/bin/go"),
        other => panic!("unexpected report {:?}", other),
    }
    match govm.which_command(&state, "godoc", false) {
        WhichReport::NotFound { command, version } => {
            assert_eq!(command, "godoc");
            assert_eq!(version, "1.21.0");
        }
        other => panic!("unexpected report {:?}", other),
    }
    let dangling = snapshot(&["1.21.0"], Some("1.20.0\n"));
    match govm.which_command(&dangling, "go", true) {
        WhichReport::NotInstalled { version } => assert_eq!(version, "1.20.0"),
        other => panic!("unexpected report {:?}", other),
    }
}

#[test]
fn test_govm_version_command() {
    let govm = manager();
    let state = snapshot(&[], None);
    assert!(govm.show_version(&state).is_none());
}

#[test]
fn show_version_names_the_marker_that_was_read() {
    let govm = manager();
    let mut state = snapshot(&["1.21.0"], Some("1.20.0\n"));
    state.context.pins = vec![
        PinFile { path: "/w/p/.go-version".to_string(), content: Some("\n".to_string()) },
        PinFile { path: "/w/.go-version".to_string(), content: Some("1.21.0\n".to_string()) },
    ];
    let report = govm.show_version(&state).unwrap();
    assert_eq!(report.version, "1.21.0");
    assert!(report.installed);
    match report.source {
        SelectionSource::ScopedPin { path } => assert_eq!(path, "/w/.go-version"),
        other => panic!("unexpected source {:?}", other),
    }
    state.context.override_value = Some("".to_string());
    state.context.pins = vec![];
    let report = govm.show_version(&state).unwrap();
    assert_eq!(report.version, "1.20.0");
    assert!(!report.installed);
    assert!(matches!(report.source, SelectionSource::GlobalDefault));
    state.context.override_value = Some("go1.19".to_string());
    let report = govm.show_version(&state).unwrap();
    assert_eq!(report.version, "1.19");
    assert!(matches!(report.source, SelectionSource::Override));
}

#[test]
fn test_govm_versions_empty() {
    let govm = manager();
    let state = snapshot(&[], None);
    assert!(govm.list_versions(&state).is_empty());
    assert!(govm.get_installed_versions(&state).is_empty());
}

#[test]
fn test_govm_global_no_version() {
    let govm = manager();
    let state = snapshot(&[], None);
    assert_eq!(govm.get_global_version(&state), None);
}

#[test]
fn list_versions_marks_current_and_global() {
    let govm = manager();
    let mut state = snapshot(&["1.20.0", "1.22.0", "1.21.0"], Some("1.21.0\n"));
    state.context.override_value = Some("1.22.0".to_string());
    let rows = govm.list_versions(&state);
    let shown: Vec<(&str, bool, bool)> =
        rows.iter().map(|r| (r.version.as_str(), r.current, r.global)).collect();
    assert_eq!(
        shown,
        vec![("1.22.0", true, false), ("1.21.0", false, true), ("1.20.0", false, false)]
    );
}

#[test]
fn list_remote_versions_filters_and_limits() {
    let govm = manager();
    let state = snapshot(&["1.21.0"], Some("1.21.0\n"));
    let catalog = vec![
        release("go1.23rc1", false, &[]),
        release("go1.22.0", true, &[]),
        release("go1.21.0", true, &[]),
        release("go1.20.0", true, &[]),
    ];
    let rows = govm.list_remote_versions(&state, &catalog, false, 2);
    let shown: Vec<(&str, bool, bool, bool)> =
        rows.iter().map(|r| (r.version.as_str(), r.installed, r.current, r.stable)).collect();
    assert_eq!(shown, vec![("1.22.0", false, false, true), ("1.21.0", true, true, true)]);
    let rows = govm.list_remote_versions(&state, &catalog, true, 20);
    assert_eq!(rows.len(), 4);
    assert_eq!(rows[0].version, "1.23rc1");
    assert!(!rows[0].stable);
    assert!(govm.list_remote_versions(&state, &catalog, true, 0).is_empty());
}

#[test]
fn test_govm_rehash() {
    let govm = manager();
    let shims = govm.rehash("/usr/local/bin/govm");
    assert_eq!(shims.len(), 2);
    assert_eq!(shims[0].path, "/home/u/.govm/shims/go");
    assert_eq!(shims[1].path, "/home/u/.govm/shims/gofmt");
    assert_eq!(shims[1].content, create_shim("gofmt", "/usr/local/bin/govm", "/x").content);
}

#[test]
fn prune_keeps_the_newest_and_the_default() {
    let govm = manager();
    let state = snapshot(&["1.20.0", "1.21.0", "1.22.0"], Some("1.20.0\n"));
    assert_eq!(govm.prune_versions(&state, 1), vec!["1.21.0"]);
}

#[test]
fn prune_removes_all_beyond_the_window() {
    let govm = manager();
    let state = snapshot(&["1.20.0", "1.21.0", "1.22.0", "1.19.0"], Some("1.22.0\n"));
    assert_eq!(govm.prune_versions(&state, 1), vec!["1.21.0", "1.20.0", "1.19.0"]);
    assert_eq!(govm.prune_versions(&state, 0), vec!["1.21.0", "1.20.0", "1.19.0"]);
    assert_eq!(govm.prune_versions(&state, 3), vec!["1.19.0"]);
    assert!(govm.prune_versions(&state, 4).is_empty());
    assert!(govm.prune_versions(&state, 100).is_empty());
    let no_default = snapshot(&["1.20.0", "1.21.0"], None);
    assert_eq!(govm.prune_versions(&no_default, 0), vec!["1.21.0", "1.20.0"]);
}

#[test]
fn prune_removes_only_after_a_yes() {
    let govm = manager();
    let candidates = vec!["1.21.0".to_string(), "1.20.0".to_string()];
    let dirs = vec!["/home/u/.govm/versions/1.21.0", "/home/u/.govm/versions/1.20.0"];
    assert_eq!(govm.confirm_prune(&candidates, "y\n"), dirs);
    assert_eq!(govm.confirm_prune(&candidates, "  Y  "), dirs);
    for answer in ["", "\n", "n", "yes", "N", "yy", "y es"] {
        assert!(govm.confirm_prune(&candidates, answer).is_empty());
    }
}

#[test]
fn install_stops_when_the_version_is_there() {
    let govm = manager();
    let state = snapshot(&["1.21.0"], None);
    match govm.install_version(&state, "go1.21.0", &InstallEvent::Requested) {
        InstallStep::AlreadyInstalled { version } => assert_eq!(version, "1.21.0"),
        other => panic!("unexpected step {:?}", other),
    }
    match govm.install_version(&state, "v1.22.0", &InstallEvent::Requested) {
        InstallStep::FetchCatalog { version } => assert_eq!(version, "1.22.0"),
        other => panic!("unexpected step {:?}", other),
    }
}

#[test]
fn install_picks_the_archive_of_the_platform() {
    let govm = manager();
    let state = snapshot(&[], None);
    let catalog = vec![
        release("go1.23rc1", false, &[("linux", "amd64")]),
        release("go1.22.0", true, &[("darwin", "arm64"), ("linux", "amd64")]),
    ];
    let event = InstallEvent::Catalog {
        versions: catalog,
        target_os: "linux".to_string(),
        target_arch: "x86_64".to_string(),
    };
    match govm.install_version(&state, "1.22.0", &event) {
        InstallStep::Download { plan } => {
            assert_eq!(plan.version, "1.22.0");
            assert_eq!(plan.url, "https://go.dev/dl/go1.22.0.linux-amd64.tar.gz");
            assert_eq!(plan.size, 1000);
            assert_eq!(plan.archive_path, "/home/u/.govm/go1.22.0.linux-amd64.tar.gz");
            assert_eq!(plan.temp_dir, "/home/u/.govm/temp_extract");
            assert_eq!(plan.version_dir, "/home/u/.govm/versions/1.22.0");
        }
        other => panic!("unexpected step {:?}", other),
    }
    match govm.install_version(&state, "1.21.0", &event) {
        InstallStep::Fail { error: GovmError::CatalogEntryMissing { version } } => {
            assert_eq!(version, "1.21.0")
        }
        other => panic!("unexpected step {:?}", other),
    }
}

#[test]
fn install_fails_without_an_archive_for_the_platform() {
    let govm = manager();
    let catalog = vec![release("go1.22.0", true, &[("darwin", "arm64")])];
    match govm.select_download(&catalog, "1.22.0", "linux", "amd64") {
        Err(GovmError::NoPlatformBinary { os, arch, version }) => {
            assert_eq!(os, "linux");
            assert_eq!(arch, "amd64");
            assert_eq!(version, "1.22.0");
        }
        other => panic!("unexpected outcome {:?}", other),
    }
}

#[test]
fn first_install_becomes_the_default() {
    let govm = manager();
    let state = snapshot(&["1.22.0"], None);
    let event = InstallEvent::Placed { shims: vec![], govm_path: "/bin/govm".to_string() };
    match govm.install_version(&state, "go1.22.0", &event) {
        InstallStep::Finish { version, shims, default } => {
            assert_eq!(version, "1.22.0");
            assert_eq!(shims.len(), 2);
            let default = default.unwrap();
            assert_eq!(default.path, "/home/u/.govm/version");
            assert_eq!(default.content, "1.22.0\n");
        }
        other => panic!("unexpected step {:?}", other),
    }
}

#[test]
fn later_install_leaves_the_default_and_current_shims() {
    let govm = manager();
    let state = snapshot(&["1.21.0", "1.22.0"], Some("1.21.0\n"));
    let shims = vec![
        ShimFile {
            name: "go".to_string(),
            content: Some(create_shim("go", "/bin/govm", "/s").content),
        },
        ShimFile {
            name: "gofmt".to_string(),
            content: Some(create_shim("gofmt", "/bin/govm", "/s").content),
        },
    ];
    let event = InstallEvent::Placed { shims, govm_path: "/bin/govm".to_string() };
    match govm.install_version(&state, "1.22.0", &event) {
        InstallStep::Finish { version, shims, default } => {
            assert_eq!(version, "1.22.0");
            assert!(shims.is_empty());
            assert!(default.is_none());
        }
        other => panic!("unexpected step {:?}", other),
    }
    let other_only = snapshot(&["1.21.0"], None);
    let event = InstallEvent::Placed { shims: vec![], govm_path: "/bin/govm".to_string() };
    match govm.install_version(&other_only, "1.22.0", &event) {
        InstallStep::Finish { default, .. } => assert!(default.is_none()),
        other => panic!("unexpected step {:?}", other),
    }
}

#[test]
fn failed_install_writes_nothing() {
    let govm = manager();
    let state = snapshot(&[], None);
    assert!(matches!(
        govm.install_version(&state, "1.22.0", &InstallEvent::Failed),
        InstallStep::Abort
    ));
}

#[test]
fn errors_are_told_in_words() {
    let version = || "1.22.0".to_string();
    assert_eq!(GovmError::NoHomeDirectory.message(), "Could not find home directory");
    assert_eq!(
        GovmError::NotInstalled { version: version() }.message(),
        "Go 1.22.0 is not installed. Run 'govm install 1.22.0' first."
    );
    assert_eq!(
        GovmError::NoVersionConfigured.message(),
        "No Go version configured. Run 'govm global <version>' or create a .go-version file"
    );
    assert_eq!(
        GovmError::VersionNotInstalled { version: version() }.message(),
        "Go 1.22.0 is not installed (required by current configuration). Run 'govm install 1.22.0'"
    );
    assert_eq!(
        GovmError::BinaryNotFound { command: "godoc".to_string(), version: version() }.message(),
        "Command 'godoc' not found in Go 1.22.0"
    );
    assert_eq!(
        GovmError::CatalogEntryMissing { version: version() }.message(),
        "Version 1.22.0 not found"
    );
    assert_eq!(
        GovmError::NoPlatformBinary {
            os: "linux".to_string(),
            arch: "amd64".to_string(),
            version: version()
        }
        .message(),
        "No binary available for linux amd64 (Go 1.22.0)"
    );
}
