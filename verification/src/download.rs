//! What to download for a version: the platform's names and the archive
//! that the catalog offers for it.

use crate::constants::ARCHIVE_KIND;
use crate::text::same_text;
use crate::types::{GoFile, GoFileView, GoVersion, GoVersionView};
use crate::version::{canonical, normalize};
use vstd::prelude::*;

verus! {

/// The name that Go gives to an operating system, from the name that Rust
/// gives it.
pub open spec fn go_os(target_os: Seq<char>) -> Seq<char> {
    if target_os == "macos"@ {
        "darwin"@
    } else if target_os == "linux"@ {
        "linux"@
    } else if target_os == "windows"@ {
        "windows"@
    } else {
        "unknown"@
    }
}

/// The name that Go gives to a processor architecture, from the name that
/// Rust gives it.
pub open spec fn go_arch(target_arch: Seq<char>) -> Seq<char> {
    if target_arch == "x86_64"@ {
        "amd64"@
    } else if target_arch == "aarch64"@ {
        "arm64"@
    } else if target_arch == "x86"@ {
        "386"@
    } else {
        "unknown"@
    }
}

/// The names that Go gives to the platform that Rust calls `target_os` and
/// `target_arch`: operating system first, architecture second.
pub fn get_platform(target_os: &str, target_arch: &str) -> (platform: (&'static str, &'static str))
    ensures
        platform.0@ == go_os(target_os@),
        platform.1@ == go_arch(target_arch@),
{
    let os = if same_text(target_os, "macos") {
        "darwin"
    } else if same_text(target_os, "linux") {
        "linux"
    } else if same_text(target_os, "windows") {
        "windows"
    } else {
        "unknown"
    };
    let arch = if same_text(target_arch, "x86_64") {
        "amd64"
    } else if same_text(target_arch, "aarch64") {
        "arm64"
    } else if same_text(target_arch, "x86") {
        "386"
    } else {
        "unknown"
    };
    (os, arch)
}

/// Whether `file` is the archive of a distribution for this platform.
pub open spec fn is_archive_for(file: GoFileView, os: Seq<char>, arch: Seq<char>) -> bool {
    file.os == os && file.arch == arch && file.kind == ARCHIVE_KIND@
}

/// The index of the first release at or after `from` whose version has the
/// canonical form `version`.
pub open spec fn release_from(catalog: Seq<GoVersionView>, version: Seq<char>, from: int) -> Option<
    int,
>
    decreases catalog.len() - from,
{
    if from < 0 || from >= catalog.len() {
        None
    } else if canonical(catalog[from].version) == version {
        Some(from)
    } else {
        release_from(catalog, version, from + 1)
    }
}

/// The index of the first file at or after `from` that is the archive for
/// this platform.
pub open spec fn archive_from(files: Seq<GoFileView>, os: Seq<char>, arch: Seq<char>, from: int) -> Option<
    int,
>
    decreases files.len() - from,
{
    if from < 0 || from >= files.len() {
        None
    } else if is_archive_for(files[from], os, arch) {
        Some(from)
    } else {
        archive_from(files, os, arch, from + 1)
    }
}

/// The release found is the first of that version, and none is found only
/// where the catalog has none.
pub proof fn release_from_is_first(catalog: Seq<GoVersionView>, version: Seq<char>, from: int)
    requires
        0 <= from,
    ensures
        match release_from(catalog, version, from) {
            Some(i) => {
                &&& from <= i < catalog.len()
                &&& canonical(catalog[i].version) == version
                &&& forall|j: int|
                    from <= j < i ==> canonical(#[trigger] catalog[j].version) != version
            },
            None => forall|j: int|
                from <= j < catalog.len() ==> canonical(#[trigger] catalog[j].version) != version,
        },
    decreases catalog.len() - from,
{
    if from < catalog.len() && canonical(catalog[from].version) != version {
        release_from_is_first(catalog, version, from + 1);
    }
}

/// The archive found is the first for the platform, and none is found only
/// where the release has none.
pub proof fn archive_from_is_first(
    files: Seq<GoFileView>,
    os: Seq<char>,
    arch: Seq<char>,
    from: int,
)
    requires
        0 <= from,
    ensures
        match archive_from(files, os, arch, from) {
            Some(i) => {
                &&& from <= i < files.len()
                &&& is_archive_for(files[i], os, arch)
                &&& forall|j: int| from <= j < i ==> !is_archive_for(#[trigger] files[j], os, arch)
            },
            None => forall|j: int|
                from <= j < files.len() ==> !is_archive_for(#[trigger] files[j], os, arch),
        },
    decreases files.len() - from,
{
    if from < files.len() && !is_archive_for(files[from], os, arch) {
        archive_from_is_first(files, os, arch, from + 1);
    }
}

/// Looks in the catalog for the release whose version has the canonical
/// form `version`, and gives the index of the first.
pub fn find_release(catalog: &Vec<GoVersion>, version: &str) -> (found: Option<usize>)
    ensures
        match found {
            Some(i) => release_from(catalog.deep_view(), version@, 0) == Some(i as int) && i
                < catalog.len(),
            None => release_from(catalog.deep_view(), version@, 0) is None,
        },
{
    let mut i: usize = 0;
    while i < catalog.len()
        invariant
            i <= catalog.len(),
            release_from(catalog.deep_view(), version@, 0) == release_from(
                catalog.deep_view(),
                version@,
                i as int,
            ),
        decreases catalog.len() - i,
    {
        assert(catalog.deep_view()[i as int] == catalog@[i as int]@);
        let name = normalize(catalog[i].version.as_str());
        if same_text(name.as_str(), version) {
            return Some(i);
        }
        i += 1;
    }
    None
}

/// Looks among the files of a release for the archive for this platform,
/// and gives the index of the first.
pub fn find_archive(files: &Vec<GoFile>, os: &str, arch: &str) -> (found: Option<usize>)
    ensures
        match found {
            Some(i) => archive_from(files.deep_view(), os@, arch@, 0) == Some(i as int) && i
                < files.len(),
            None => archive_from(files.deep_view(), os@, arch@, 0) is None,
        },
{
    let mut i: usize = 0;
    while i < files.len()
        invariant
            i <= files.len(),
            archive_from(files.deep_view(), os@, arch@, 0) == archive_from(
                files.deep_view(),
                os@,
                arch@,
                i as int,
            ),
        decreases files.len() - i,
    {
        assert(files.deep_view()[i as int] == files@[i as int]@);
        let file = &files[i];
        if same_text(file.os.as_str(), os) && same_text(file.arch.as_str(), arch) && same_text(
            file.kind.as_str(),
            ARCHIVE_KIND,
        ) {
            return Some(i);
        }
        i += 1;
    }
    None
}

} // verus!
