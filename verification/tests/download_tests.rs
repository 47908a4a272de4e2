use govm::download::{find_archive, find_release, get_platform};
use govm::types::{GoFile, GoVersion};

fn archive(filename: &str, os: &str, arch: &str, kind: &str, size: u64) -> GoFile {
    GoFile {
        filename: filename.to_string(),
        os: os.to_string(),
        arch: arch.to_string(),
        sha256: "abc123".to_string(),
        size,
        kind: kind.to_string(),
    }
}

#[test]
fn test_get_platform_returns_valid_os() {
    for target in ["macos", "linux", "windows", "freebsd", ""] {
        let (os, _) = get_platform(target, "x86_64");
        assert!(
            ["darwin", "linux", "windows", "unknown"].contains(&os),
            "OS should be one of darwin, linux, windows, or unknown"
        );
    }
}

#[test]
fn test_get_platform_returns_valid_arch() {
    for target in ["x86_64", "aarch64", "x86", "riscv64", ""] {
        let (_, arch) = get_platform("linux", target);
        assert!(
            ["amd64", "arm64", "386", "unknown"].contains(&arch),
            "Arch should be one of amd64, arm64, 386, or unknown"
        );
    }
}

#[test]
fn test_get_platform_macos() {
    let (os, _) = get_platform("macos", "aarch64");
    assert_eq!(os, "darwin");
}

#[test]
fn test_get_platform_linux() {
    let (os, _) = get_platform("linux", "x86_64");
    assert_eq!(os, "linux");
}

#[test]
fn test_get_platform_amd64() {
    let (_, arch) = get_platform("linux", "x86_64");
    assert_eq!(arch, "amd64");
}

#[test]
fn test_get_platform_arm64() {
    let (_, arch) = get_platform("macos", "aarch64");
    assert_eq!(arch, "arm64");
}

#[test]
fn platform_names_are_exact() {
    assert_eq!(get_platform("windows", "x86"), ("windows", "386"));
    assert_eq!(get_platform("freebsd", "arm"), ("unknown", "unknown"));
    assert_eq!(get_platform("Linux", "X86_64"), ("unknown", "unknown"));
}

#[test]
fn test_go_version_deserialize() {
    let version = GoVersion { version: "go1.22.0".to_string(), stable: true, files: vec![] };
    assert_eq!(version.version, "go1.22.0");
    assert!(version.stable);
    assert!(version.files.is_empty());
}

#[test]
fn test_go_file_deserialize() {
    let file = archive("go1.22.0.darwin-arm64.tar.gz", "darwin", "arm64", "archive", 12345678);
    assert_eq!(file.filename, "go1.22.0.darwin-arm64.tar.gz");
    assert_eq!(file.os, "darwin");
    assert_eq!(file.arch, "arm64");
    assert_eq!(file.size, 12345678);
    assert_eq!(file.kind, "archive");
}

#[test]
fn test_go_version_with_files() {
    let version = GoVersion {
        version: "go1.22.0".to_string(),
        stable: true,
        files: vec![
            archive("go1.22.0.darwin-arm64.tar.gz", "darwin", "arm64", "archive", 12345678),
            archive("go1.22.0.linux-amd64.tar.gz", "linux", "amd64", "archive", 23456789),
        ],
    };
    assert_eq!(version.files.len(), 2);
    assert_eq!(version.files[0].os, "darwin");
    assert_eq!(version.files[1].os, "linux");
}

#[test]
fn test_go_version_unstable() {
    let version = GoVersion { version: "go1.23rc1".to_string(), stable: false, files: vec![] };
    assert!(!version.stable);
}

#[test]
fn first_release_of_a_version_is_found() {
    let catalog = vec![
        GoVersion { version: "go1.23rc1".to_string(), stable: false, files: vec![] },
        GoVersion { version: "go1.22.0".to_string(), stable: true, files: vec![] },
        GoVersion { version: "v1.22.0".to_string(), stable: true, files: vec![] },
    ];
    assert_eq!(find_release(&catalog, "1.22.0"), Some(1));
    assert_eq!(find_release(&catalog, "1.23rc1"), Some(0));
    assert_eq!(find_release(&catalog, "go1.22.0"), None);
    assert_eq!(find_release(&catalog, "1.21.0"), None);
    assert_eq!(find_release(&vec![], "1.21.0"), None);
}

#[test]
fn first_archive_for_the_platform_is_found() {
    let files = vec![
        archive("go1.22.0.src.tar.gz", "", "", "source", 1),
        archive("go1.22.0.linux-amd64.msi", "linux", "amd64", "installer", 2),
        archive("go1.22.0.darwin-arm64.tar.gz", "darwin", "arm64", "archive", 3),
        archive("go1.22.0.linux-amd64.tar.gz", "linux", "amd64", "archive", 4),
        archive("go1.22.0.linux-amd64.zip", "linux", "amd64", "archive", 5),
    ];
    assert_eq!(find_archive(&files, "linux", "amd64"), Some(3));
    assert_eq!(find_archive(&files, "darwin", "arm64"), Some(2));
    assert_eq!(find_archive(&files, "windows", "amd64"), None);
    assert_eq!(find_archive(&files, "linux", "arm64"), None);
}
