//! The manager: where it keeps its files, and what each command decides.

use crate::constants::{GO_DOWNLOAD_BASE, TEMP_DIR_NAME};
use crate::download::{
    archive_from, find_archive, find_release, get_platform, go_arch, go_os, release_from,
};
use crate::error::{ErrorView, GovmError};
use crate::home::home_dir;
use crate::paths::{join_path, joined};
use crate::plan::{
    DownloadPlan, DownloadPlanView, ExecPlan, ExecPlanView, InstallEvent, InstallEventView,
    InstallStep, InstallStepView, MarkerWrite, MarkerWriteView, RemoteRow, RemoteRowView,
    Snapshot, SnapshotView, UninstallPlan, UninstallPlanView, UsePlan, UsePlanView,
    VersionReport, VersionReportView, VersionRow, VersionRowView, WhichReport, WhichReportView,
};
use crate::registry::{
    get_installed_versions, is_install, is_installed, is_version_installed, listed, DirEntryView,
};
use crate::resolve::{
    get_global_version, local_version, marker_version, override_version, resolve,
    resolve_source, resolved, resolved_source, ContextView, PIN_FILE_NAME,
};
use crate::shim::{
    all_shims, create_all_shims, ensure_shims, managed_binaries, needed_shims, Shim,
};
use crate::text::{is_space, same_text, trim, trimmed, trimmed_end, trimmed_start};
use crate::types::{GoVersion, GoVersionView};
use crate::version::{canonical, canonical_fixed_points, is_bare, normalize};
use vstd::prelude::*;
use vstd::string::StringExecFns;

verus! {

/// The manager, known by the places where it keeps its files.
#[derive(Debug)]
pub struct GoVM {
    pub root_dir: String,
    pub versions_dir: String,
    pub shims_dir: String,
    pub global_version_file: String,
}

/// The mathematical value of a [`GoVM`].
pub struct LayoutView {
    pub root_dir: Seq<char>,
    pub versions_dir: Seq<char>,
    pub shims_dir: Seq<char>,
    pub global_version_file: Seq<char>,
}

impl View for GoVM {
    type V = LayoutView;

    open spec fn view(&self) -> LayoutView {
        LayoutView {
            root_dir: self.root_dir@,
            versions_dir: self.versions_dir@,
            shims_dir: self.shims_dir@,
            global_version_file: self.global_version_file@,
        }
    }
}

/// The places of a manager that lives in the home directory `home`.
pub open spec fn layout(home: Seq<char>) -> LayoutView {
    let root = joined(home, ".govm"@);
    LayoutView {
        root_dir: root,
        versions_dir: joined(root, "versions"@),
        shims_dir: joined(root, "shims"@),
        global_version_file: joined(root, "version"@),
    }
}

/// The directory of an installed version.
pub open spec fn install_dir(l: LayoutView, version: Seq<char>) -> Seq<char> {
    joined(l.versions_dir, version)
}

/// The path of a binary of an installed version.
pub open spec fn bin_path(l: LayoutView, version: Seq<char>, binary: Seq<char>) -> Seq<char> {
    joined(joined(install_dir(l, version), "bin"@), binary)
}

/// The marker at `path` that names `version`: the version and a line end.
pub open spec fn marker_for(path: Seq<char>, version: Seq<char>) -> MarkerWriteView {
    MarkerWriteView { path, content: version + "\n"@ }
}

/// What setting a marker at `path` to `version` comes to: the marker is
/// written if the version is installed, and refused if it is not.
pub open spec fn set_version_outcome(
    state: SnapshotView,
    path: Seq<char>,
    version: Seq<char>,
) -> Result<MarkerWriteView, ErrorView> {
    let v = canonical(version);
    if is_installed(state.entries, v) {
        Ok(marker_for(path, v))
    } else {
        Err(ErrorView::NotInstalled { version: v })
    }
}

/// How to switch to `version`.
pub open spec fn use_plan(
    l: LayoutView,
    state: SnapshotView,
    version: Seq<char>,
    local: bool,
    cwd: Seq<char>,
) -> UsePlanView {
    let v = canonical(version);
    UsePlanView {
        version: v,
        install: !is_installed(state.entries, v),
        marker: marker_for(
            if local {
                joined(cwd, PIN_FILE_NAME@)
            } else {
                l.global_version_file
            },
            v,
        ),
    }
}

/// How to uninstall `version`: nothing where it is not installed; else its
/// directory goes, and the global marker before it where it names the
/// version.
pub open spec fn uninstall_plan(
    l: LayoutView,
    state: SnapshotView,
    version: Seq<char>,
) -> UninstallPlanView {
    let v = canonical(version);
    if is_installed(state.entries, v) {
        UninstallPlanView::Remove {
            version: v,
            clear_default: marker_version(state.context.global) == Some(v),
            dir: install_dir(l, v),
        }
    } else {
        UninstallPlanView::NotInstalled { version: v }
    }
}

/// The listing without the entries called `version`.
pub open spec fn entries_without(entries: Seq<DirEntryView>, version: Seq<char>) -> Seq<
    DirEntryView,
>
    decreases entries.len(),
{
    if entries.len() == 0 {
        Seq::empty()
    } else {
        let before = entries_without(entries.drop_last(), version);
        if entries.last().name == Some(version) {
            before
        } else {
            before.push(entries.last())
        }
    }
}

/// What is found once an [`UninstallPlan`] is carried out.
pub open spec fn after_uninstall(state: SnapshotView, plan: UninstallPlanView) -> SnapshotView {
    match plan {
        UninstallPlanView::NotInstalled { .. } => state,
        UninstallPlanView::Remove { version, clear_default, .. } => SnapshotView {
            context: ContextView {
                override_value: state.context.override_value,
                pins: state.context.pins,
                global: if clear_default {
                    None
                } else {
                    state.context.global
                },
            },
            entries: entries_without(state.entries, version),
        },
    }
}

/// What running `command` comes to. `binary_exists` says whether the
/// binary stands at its path in the version that applies.
pub open spec fn exec_outcome(
    l: LayoutView,
    state: SnapshotView,
    command: Seq<char>,
    binary_exists: bool,
) -> Result<ExecPlanView, ErrorView> {
    match resolved(state.context) {
        None => Err(ErrorView::NoVersionConfigured),
        Some(v) => if !is_installed(state.entries, v) {
            Err(ErrorView::VersionNotInstalled { version: v })
        } else if !binary_exists {
            Err(ErrorView::BinaryNotFound { command, version: v })
        } else {
            Ok(
                ExecPlanView {
                    version: v,
                    program: bin_path(l, v, command),
                    goroot: install_dir(l, v),
                },
            )
        },
    }
}

/// The path at which to look for the binary of `command`: that in the
/// version that applies, where one applies and is installed.
pub open spec fn probe_path(l: LayoutView, state: SnapshotView, command: Seq<char>) -> Option<
    Seq<char>,
> {
    match resolved(state.context) {
        None => None,
        Some(v) => if is_installed(state.entries, v) {
            Some(bin_path(l, v, command))
        } else {
            None
        },
    }
}

/// The answer to which binary `command` would run.
pub open spec fn which_report(
    l: LayoutView,
    state: SnapshotView,
    command: Seq<char>,
    binary_exists: bool,
) -> WhichReportView {
    match resolved(state.context) {
        None => WhichReportView::NoVersion,
        Some(v) => if !is_installed(state.entries, v) {
            WhichReportView::NotInstalled { version: v }
        } else if !binary_exists {
            WhichReportView::NotFound { command, version: v }
        } else {
            WhichReportView::Found { path: bin_path(l, v, command) }
        },
    }
}

/// The version that applies, with where it comes from and whether it is
/// installed; `None` where no version applies.
pub open spec fn version_report(state: SnapshotView) -> Option<VersionReportView> {
    match resolved(state.context) {
        None => None,
        Some(v) => Some(
            VersionReportView {
                version: v,
                source: resolved_source(state.context),
                installed: is_installed(state.entries, v),
            },
        ),
    }
}

/// The line of the list of installed versions for `version`.
pub open spec fn version_row(state: SnapshotView, version: Seq<char>) -> VersionRowView {
    VersionRowView {
        version,
        current: resolved(state.context) == Some(version),
        global: marker_version(state.context.global) == Some(version),
    }
}

/// The list of installed versions, from the highest to the lowest.
pub open spec fn version_rows(state: SnapshotView) -> Seq<VersionRowView> {
    Seq::new(listed(state.entries).len(), |i: int| version_row(state, listed(state.entries)[i]))
}

/// The first `limit` releases of the catalog, of all where `all` is set and
/// of the stable ones where it is not.
pub open spec fn offered(catalog: Seq<GoVersionView>, all: bool, limit: int) -> Seq<GoVersionView>
    decreases catalog.len(),
{
    if catalog.len() == 0 {
        Seq::empty()
    } else {
        let before = offered(catalog.drop_last(), all, limit);
        if (all || catalog.last().stable) && before.len() < limit {
            before.push(catalog.last())
        } else {
            before
        }
    }
}

/// The line of the list of downloadable versions for `release`.
pub open spec fn remote_row(state: SnapshotView, release: GoVersionView) -> RemoteRowView {
    let v = canonical(release.version);
    RemoteRowView {
        version: v,
        installed: is_installed(state.entries, v),
        current: resolved(state.context) == Some(v),
        stable: release.stable,
    }
}

/// The lines for `releases`, in their order.
pub open spec fn remote_rows(state: SnapshotView, releases: Seq<GoVersionView>) -> Seq<
    RemoteRowView,
> {
    Seq::new(releases.len(), |i: int| remote_row(state, releases[i]))
}

/// The versions that pruning removes: of `names`, all after the first
/// `keep` but the global default, in their order.
pub open spec fn prunable(names: Seq<Seq<char>>, keep: int, default: Option<Seq<char>>) -> Seq<
    Seq<char>,
>
    decreases names.len(),
{
    if names.len() == 0 || names.len() <= keep {
        Seq::empty()
    } else {
        let before = prunable(names.drop_last(), keep, default);
        if Some(names.last()) != default {
            before.push(names.last())
        } else {
            before
        }
    }
}

/// Whether an answer to the question whether to go on says yes: it is `y`
/// or `Y`, with or without white space around it.
pub open spec fn says_yes(answer: Seq<char>) -> bool {
    trimmed(answer) == "y"@ || trimmed(answer) == "Y"@
}

/// The directories of `versions`, in their order.
pub open spec fn install_dirs(l: LayoutView, versions: Seq<Seq<char>>) -> Seq<Seq<char>> {
    Seq::new(versions.len(), |i: int| install_dir(l, versions[i]))
}

/// The directories that pruning removes after `answer` was given: those of
/// `candidates` after a yes, none else.
pub open spec fn confirmed_removals(
    l: LayoutView,
    candidates: Seq<Seq<char>>,
    answer: Seq<char>,
) -> Seq<Seq<char>> {
    if says_yes(answer) {
        install_dirs(l, candidates)
    } else {
        Seq::empty()
    }
}

/// What to download for the version `version`, on the platform that Go
/// calls `os` and `arch`: the first archive for the platform of the first
/// release of that version.
pub open spec fn download_for(
    l: LayoutView,
    catalog: Seq<GoVersionView>,
    version: Seq<char>,
    os: Seq<char>,
    arch: Seq<char>,
) -> Result<DownloadPlanView, ErrorView> {
    match release_from(catalog, version, 0) {
        None => Err(ErrorView::CatalogEntryMissing { version }),
        Some(i) => match archive_from(catalog[i].files, os, arch, 0) {
            None => Err(ErrorView::NoPlatformBinary { os, arch, version }),
            Some(k) => Ok(
                DownloadPlanView {
                    version,
                    url: GO_DOWNLOAD_BASE@ + catalog[i].files[k].filename,
                    size: catalog[i].files[k].size,
                    archive_path: joined(l.root_dir, catalog[i].files[k].filename),
                    temp_dir: joined(l.root_dir, TEMP_DIR_NAME@),
                    version_dir: install_dir(l, version),
                },
            ),
        },
    }
}

/// The global marker to write at the end of an installation: one that
/// names the version, where it is the only one installed.
pub open spec fn first_default(l: LayoutView, state: SnapshotView, version: Seq<char>) -> Option<
    MarkerWriteView,
> {
    if listed(state.entries) == seq![version] {
        Some(marker_for(l.global_version_file, version))
    } else {
        None
    }
}

/// The next step of the installation of `version` after `event`.
pub open spec fn install_step(
    l: LayoutView,
    state: SnapshotView,
    version: Seq<char>,
    event: InstallEventView,
) -> InstallStepView {
    let v = canonical(version);
    match event {
        InstallEventView::Requested => if is_installed(state.entries, v) {
            InstallStepView::AlreadyInstalled { version: v }
        } else {
            InstallStepView::FetchCatalog { version: v }
        },
        InstallEventView::Catalog { versions, target_os, target_arch } => match download_for(
            l,
            versions,
            v,
            go_os(target_os),
            go_arch(target_arch),
        ) {
            Ok(plan) => InstallStepView::Download { plan },
            Err(error) => InstallStepView::Fail { error },
        },
        InstallEventView::Placed { shims, govm_path } => InstallStepView::Finish {
            version: v,
            shims: needed_shims(l.shims_dir, govm_path, managed_binaries(), shims),
            default: first_default(l, state, v),
        },
        InstallEventView::Failed => InstallStepView::Abort,
    }
}

/// A marker written for a version reads back as that version, if the
/// version is in canonical form, is not empty and has no white space at
/// either end.
pub proof fn marker_reads_back(path: Seq<char>, version: Seq<char>)
    requires
        version.len() > 0,
        is_bare(version),
        !is_space(version.first()),
        !is_space(version.last()),
    ensures
        marker_version(Some(marker_for(path, version).content)) == Some(version),
{
    reveal_strlit("\n");
    let content = version + "\n"@;
    assert("\n"@ =~= seq!['\n']);
    assert(content.first() == version.first());
    assert(trimmed_start(content) == content);
    assert(is_space(content.last()));
    assert(content.drop_last() =~= version);
    assert(trimmed_end(content) == trimmed_end(version));
    assert(trimmed_end(version) == version);
    assert(trimmed(content) == version);
    canonical_fixed_points(version);
}

/// The listing without the entries called `version` has no such entry, and
/// keeps every other.
pub proof fn entries_without_removes(entries: Seq<DirEntryView>, version: Seq<char>)
    ensures
        !is_installed(entries_without(entries, version), version),
        forall|other: Seq<char>|
            other != version ==> (is_installed(entries_without(entries, version), other)
                <==> is_installed(entries, other)),
    decreases entries.len(),
{
    let rest = entries_without(entries, version);
    if entries.len() > 0 {
        let front = entries.drop_last();
        let before = entries_without(front, version);
        entries_without_removes(front, version);
        if is_installed(rest, version) {
            let i = choose|i: int|
                0 <= i < rest.len() && is_install(#[trigger] rest[i])
                    && rest[i].name == Some(version);
            if i < before.len() {
                assert(before[i] == rest[i]);
                assert(is_installed(before, version));
            }
        }
        assert forall|other: Seq<char>| other != version implies (is_installed(rest, other)
            <==> is_installed(entries, other)) by {
            if is_installed(rest, other) {
                let i = choose|i: int|
                    0 <= i < rest.len() && is_install(#[trigger] rest[i])
                        && rest[i].name == Some(other);
                if i < before.len() {
                    assert(before[i] == rest[i]);
                    assert(is_installed(before, other));
                    assert(is_installed(front, other));
                    let k = choose|k: int|
                        0 <= k < front.len() && is_install(#[trigger] front[k])
                            && front[k].name == Some(other);
                    assert(entries[k] == front[k]);
                } else {
                    assert(rest[i] == entries[entries.len() - 1]);
                }
            }
            if is_installed(entries, other) {
                let k = choose|k: int|
                    0 <= k < entries.len() && is_install(#[trigger] entries[k])
                        && entries[k].name == Some(other);
                if k < front.len() {
                    assert(front[k] == entries[k]);
                    assert(is_installed(front, other));
                    assert(is_installed(before, other));
                    let i = choose|i: int|
                        0 <= i < before.len() && is_install(
                            #[trigger] before[i],
                        ) && before[i].name == Some(other);
                    assert(rest[i] == before[i]);
                } else {
                    assert(rest[rest.len() - 1] == entries[k]);
                }
            }
        }
    }
}

/// Uninstalling the version that is the global default clears the global
/// marker and takes the version away; if neither an override nor a pin
/// names a version, no version applies after that.
pub proof fn uninstall_clears_default(l: LayoutView, state: SnapshotView, version: Seq<char>)
    requires
        is_installed(state.entries, canonical(version)),
        marker_version(state.context.global) == Some(canonical(version)),
    ensures
        uninstall_plan(l, state, version) == (UninstallPlanView::Remove {
            version: canonical(version),
            clear_default: true,
            dir: install_dir(l, canonical(version)),
        }),
        after_uninstall(state, uninstall_plan(l, state, version)).context.global is None,
        !is_installed(
            after_uninstall(state, uninstall_plan(l, state, version)).entries,
            canonical(version),
        ),
        override_version(state.context.override_value) is None
            && local_version(state.context.pins) is None ==> resolved(
            after_uninstall(state, uninstall_plan(l, state, version)).context,
        ) is None,
{
    entries_without_removes(state.entries, canonical(version));
}

/// Pruning removes exactly the versions that stand after the first `keep`
/// and are not the global default.
pub proof fn prunable_is_exact(
    names: Seq<Seq<char>>,
    keep: int,
    default: Option<Seq<char>>,
    name: Seq<char>,
)
    requires
        0 <= keep,
    ensures
        prunable(names, keep, default).contains(name) <==> (Some(name) != default && exists|i: int|
            keep <= i < names.len() && #[trigger] names[i] == name),
    decreases names.len(),
{
    let out = prunable(names, keep, default);
    if names.len() > 0 && names.len() > keep {
        let front = names.drop_last();
        let before = prunable(front, keep, default);
        prunable_is_exact(front, keep, default, name);
        if out.contains(name) {
            let k = choose|k: int| 0 <= k < out.len() && out[k] == name;
            if k < before.len() {
                assert(before[k] == name);
                assert(before.contains(name));
                let i = choose|i: int| keep <= i < front.len() && #[trigger] front[i] == name;
                assert(names[i] == name);
            } else {
                assert(names[names.len() - 1] == name);
            }
        }
        if Some(name) != default && exists|i: int|
            keep <= i < names.len() && #[trigger] names[i] == name {
            let i = choose|i: int| keep <= i < names.len() && #[trigger] names[i] == name;
            if i < front.len() {
                assert(front[i] == name);
                assert(before.contains(name));
                let k = choose|k: int| 0 <= k < before.len() && before[k] == name;
                assert(out[k] == name);
            } else {
                assert(out[out.len() - 1] == name);
            }
        }
    }
}

/// Of three installed versions of which the lowest is the global default,
/// pruning that keeps one removes the middle one alone: the highest is
/// kept as the one to keep, the lowest as the default.
pub proof fn prune_spares_default(highest: Seq<char>, middle: Seq<char>, lowest: Seq<char>)
    requires
        middle != lowest,
    ensures
        prunable(seq![highest, middle, lowest], 1, Some(lowest)) == seq![middle],
{
    let three = seq![highest, middle, lowest];
    let two = seq![highest, middle];
    let one = seq![highest];
    assert(three.drop_last() =~= two);
    assert(two.drop_last() =~= one);
    assert(prunable(one, 1, Some(lowest)) =~= Seq::<Seq<char>>::empty());
    assert(prunable(two, 1, Some(lowest)) =~= seq![middle]);
    assert(prunable(three, 1, Some(lowest)) =~= seq![middle]);
}

fn marker(path: String, version: &str) -> (write: MarkerWrite)
    ensures
        write@ == marker_for(path@, version@),
{
    let mut content = String::from_str(version);
    content.append("\n");
    MarkerWrite { path, content }
}

impl GoVM {
    /// The manager that lives in the home directory `home`.
    pub fn with_home(home: &str) -> (govm: GoVM)
        ensures
            govm@ == layout(home@),
    {
        let root_dir = join_path(home, ".govm");
        let versions_dir = join_path(root_dir.as_str(), "versions");
        let shims_dir = join_path(root_dir.as_str(), "shims");
        let global_version_file = join_path(root_dir.as_str(), "version");
        GoVM { root_dir, versions_dir, shims_dir, global_version_file }
    }

    /// The manager that lives in the user's home directory; an error where
    /// none is known.
    pub fn new() -> (made: Result<GoVM, GovmError>)
        ensures
            match made {
                Ok(govm) => exists|home: Seq<char>| govm@ == #[trigger] layout(home),
                Err(error) => error@ == ErrorView::NoHomeDirectory,
            },
    {
        match home_dir() {
            Some(home) => {
                let govm = GoVM::with_home(home.as_str());
                assert(govm@ == layout(home@));
                Ok(govm)
            },
            None => Err(GovmError::NoHomeDirectory),
        }
    }

    /// The installed versions, from the highest to the lowest.
    pub fn get_installed_versions(&self, state: &Snapshot) -> (names: Vec<String>)
        ensures
            names.deep_view() == listed(state@.entries),
    {
        get_installed_versions(&state.entries)
    }

    /// Whether `version` is installed.
    pub fn is_version_installed(&self, state: &Snapshot, version: &str) -> (installed: bool)
        ensures
            installed == is_installed(state@.entries, version@),
    {
        is_version_installed(&state.entries, version)
    }

    /// The directory of the installed version `version`.
    pub fn get_version_dir(&self, version: &str) -> (path: String)
        ensures
            path@ == install_dir(self@, version@),
    {
        join_path(self.versions_dir.as_str(), version)
    }

    /// The path of the binary `binary` of the installed version `version`.
    pub fn get_version_bin_path(&self, version: &str, binary: &str) -> (path: String)
        ensures
            path@ == bin_path(self@, version@, binary@),
    {
        let dir = self.get_version_dir(version);
        let bin = join_path(dir.as_str(), "bin");
        join_path(bin.as_str(), binary)
    }

    /// The version that applies, if any.
    pub fn resolve_version(&self, state: &Snapshot) -> (version: Option<String>)
        ensures
            version.deep_view() == resolved(state@.context),
    {
        resolve(&state.context)
    }

    /// The global default, if any.
    pub fn get_global_version(&self, state: &Snapshot) -> (version: Option<String>)
        ensures
            version.deep_view() == marker_version(state@.context.global),
    {
        get_global_version(&state.context.global)
    }

    /// Makes `version` the global default: gives the marker to write, or
    /// refuses where the version is not installed.
    pub fn set_global_version(&self, state: &Snapshot, version: &str) -> (outcome: Result<
        MarkerWrite,
        GovmError,
    >)
        ensures
            match outcome {
                Ok(write) => set_version_outcome(state@, self@.global_version_file, version@)
                    == Ok::<MarkerWriteView, ErrorView>(write@),
                Err(error) => set_version_outcome(state@, self@.global_version_file, version@)
                    == Err::<MarkerWriteView, ErrorView>(error@),
            },
    {
        let v = normalize(version);
        if !is_version_installed(&state.entries, v.as_str()) {
            return Err(GovmError::NotInstalled { version: v });
        }
        Ok(marker(self.global_version_file.clone(), v.as_str()))
    }

    /// Pins `version` for the directory `cwd`: gives the marker to write,
    /// or refuses where the version is not installed.
    pub fn set_local_version(&self, state: &Snapshot, version: &str, cwd: &str) -> (outcome:
        Result<MarkerWrite, GovmError>)
        ensures
            match outcome {
                Ok(write) => set_version_outcome(state@, joined(cwd@, PIN_FILE_NAME@), version@)
                    == Ok::<MarkerWriteView, ErrorView>(write@),
                Err(error) => set_version_outcome(state@, joined(cwd@, PIN_FILE_NAME@), version@)
                    == Err::<MarkerWriteView, ErrorView>(error@),
            },
    {
        let v = normalize(version);
        if !is_version_installed(&state.entries, v.as_str()) {
            return Err(GovmError::NotInstalled { version: v });
        }
        Ok(marker(join_path(cwd, PIN_FILE_NAME), v.as_str()))
    }

    /// Switches to `version`, for the directory `cwd` where `local` is set
    /// and as the global default where it is not: the version is installed
    /// first if it is not yet, and the marker written after that.
    pub fn use_version(&self, state: &Snapshot, version: &str, local: bool, cwd: &str) -> (plan:
        UsePlan)
        ensures
            plan@ == use_plan(self@, state@, version@, local, cwd@),
    {
        let v = normalize(version);
        let install = !is_version_installed(&state.entries, v.as_str());
        let path = if local {
            join_path(cwd, PIN_FILE_NAME)
        } else {
            self.global_version_file.clone()
        };
        let write = marker(path, v.as_str());
        UsePlan { version: v, install, marker: write }
    }

    /// Uninstalls `version`: says what to remove.
    pub fn uninstall_version(&self, state: &Snapshot, version: &str) -> (plan: UninstallPlan)
        ensures
            plan@ == uninstall_plan(self@, state@, version@),
    {
        let v = normalize(version);
        if !is_version_installed(&state.entries, v.as_str()) {
            return UninstallPlan::NotInstalled { version: v };
        }
        let clear_default = match get_global_version(&state.context.global) {
            Some(global) => same_text(global.as_str(), v.as_str()),
            None => false,
        };
        let dir = self.get_version_dir(v.as_str());
        UninstallPlan::Remove { version: v, clear_default, dir }
    }

    /// The path at which to look for the binary of `command` before
    /// [`GoVM::exec_command`] or [`GoVM::which_command`] is asked.
    pub fn command_path(&self, state: &Snapshot, command: &str) -> (path: Option<String>)
        ensures
            path.deep_view() == probe_path(self@, state@, command@),
    {
        match resolve(&state.context) {
            Some(v) => {
                if is_version_installed(&state.entries, v.as_str()) {
                    Some(self.get_version_bin_path(v.as_str(), command))
                } else {
                    None
                }
            },
            None => None,
        }
    }

    /// Runs `command` in the version that applies: says what to run, or
    /// why nothing can be run. Nothing is run unless a version applies, is
    /// installed and has the binary.
    pub fn exec_command(&self, state: &Snapshot, command: &str, binary_exists: bool) -> (outcome:
        Result<ExecPlan, GovmError>)
        ensures
            match outcome {
                Ok(plan) => exec_outcome(self@, state@, command@, binary_exists) == Ok::<
                    ExecPlanView,
                    ErrorView,
                >(plan@),
                Err(error) => exec_outcome(self@, state@, command@, binary_exists) == Err::<
                    ExecPlanView,
                    ErrorView,
                >(error@),
            },
            resolved(state@.context) matches Some(v) && !is_installed(state@.entries, v)
                ==> outcome matches Err(GovmError::VersionNotInstalled { .. }),
    {
        match resolve(&state.context) {
            None => Err(GovmError::NoVersionConfigured),
            Some(v) => {
                if !is_version_installed(&state.entries, v.as_str()) {
                    Err(GovmError::VersionNotInstalled { version: v })
                } else if !binary_exists {
                    Err(GovmError::BinaryNotFound { command: String::from_str(command), version: v })
                } else {
                    let program = self.get_version_bin_path(v.as_str(), command);
                    let goroot = self.get_version_dir(v.as_str());
                    Ok(ExecPlan { version: v, program, goroot })
                }
            },
        }
    }

    /// Says which binary `command` would run.
    pub fn which_command(&self, state: &Snapshot, command: &str, binary_exists: bool) -> (report:
        WhichReport)
        ensures
            report@ == which_report(self@, state@, command@, binary_exists),
    {
        match resolve(&state.context) {
            None => WhichReport::NoVersion,
            Some(v) => {
                if !is_version_installed(&state.entries, v.as_str()) {
                    WhichReport::NotInstalled { version: v }
                } else if !binary_exists {
                    WhichReport::NotFound { command: String::from_str(command), version: v }
                } else {
                    WhichReport::Found { path: self.get_version_bin_path(v.as_str(), command) }
                }
            },
        }
    }

    /// Says which version applies, where it comes from and whether it is
    /// installed.
    pub fn show_version(&self, state: &Snapshot) -> (report: Option<VersionReport>)
        ensures
            report.deep_view() == version_report(state@),
    {
        match resolve(&state.context) {
            None => None,
            Some(v) => {
                let source = resolve_source(&state.context);
                let installed = is_version_installed(&state.entries, v.as_str());
                Some(VersionReport { version: v, source, installed })
            },
        }
    }

    /// Lists the installed versions, from the highest to the lowest.
    pub fn list_versions(&self, state: &Snapshot) -> (rows: Vec<VersionRow>)
        ensures
            rows.deep_view() == version_rows(state@),
    {
        let names = get_installed_versions(&state.entries);
        let current = resolve(&state.context);
        let global = get_global_version(&state.context.global);
        let mut rows: Vec<VersionRow> = Vec::new();
        let mut i: usize = 0;
        while i < names.len()
            invariant
                i <= names.len(),
                rows.len() == i,
                names.deep_view() == listed(state@.entries),
                current.deep_view() == resolved(state@.context),
                global.deep_view() == marker_version(state@.context.global),
                forall|k: int|
                    0 <= k < i ==> (#[trigger] rows@[k])@ == version_row(
                        state@,
                        names.deep_view()[k],
                    ),
            decreases names.len() - i,
        {
            let name = &names[i];
            assert(names.deep_view()[i as int] == name@);
            let is_current = match &current {
                Some(v) => same_text(v.as_str(), name.as_str()),
                None => false,
            };
            let is_global = match &global {
                Some(v) => same_text(v.as_str(), name.as_str()),
                None => false,
            };
            rows.push(VersionRow { version: name.clone(), current: is_current, global: is_global });
            i += 1;
        }
        assert(rows.deep_view() =~= version_rows(state@));
        rows
    }

    /// Lists the first `limit` versions of the catalog: of all where `all`
    /// is set, of the stable ones where it is not.
    pub fn list_remote_versions(
        &self,
        state: &Snapshot,
        catalog: &Vec<GoVersion>,
        all: bool,
        limit: usize,
    ) -> (rows: Vec<RemoteRow>)
        ensures
            rows.deep_view() == remote_rows(state@, offered(catalog.deep_view(), all, limit as int)),
    {
        let current = resolve(&state.context);
        let mut rows: Vec<RemoteRow> = Vec::new();
        let ghost releases = catalog.deep_view();
        let mut i: usize = 0;
        assert(releases.take(0) =~= Seq::<GoVersionView>::empty());
        assert(rows.deep_view() =~= remote_rows(state@, offered(releases.take(0), all, limit as int)));
        while i < catalog.len()
            invariant
                i <= catalog.len(),
                releases == catalog.deep_view(),
                current.deep_view() == resolved(state@.context),
                rows.deep_view() == remote_rows(
                    state@,
                    offered(releases.take(i as int), all, limit as int),
                ),
            decreases catalog.len() - i,
        {
            let release = &catalog[i];
            assert(releases[i as int] == release@);
            assert(releases.take(i + 1).drop_last() =~= releases.take(i as int));
            assert(releases.take(i + 1).last() == release@);
            if (all || release.stable) && rows.len() < limit {
                let v = normalize(release.version.as_str());
                let installed = is_version_installed(&state.entries, v.as_str());
                let is_current = match &current {
                    Some(c) => same_text(c.as_str(), v.as_str()),
                    None => false,
                };
                let ghost before = rows.deep_view();
                let row = RemoteRow { version: v, installed, current: is_current, stable: release.stable };
                assert(row@ == remote_row(state@, release@));
                rows.push(row);
                assert(rows.deep_view() =~= before.push(remote_row(state@, release@)));
                assert(rows.deep_view() =~= remote_rows(
                    state@,
                    offered(releases.take(i + 1), all, limit as int),
                ));
            }
            i += 1;
        }
        assert(releases.take(i as int) =~= releases);
        rows
    }

    /// Writes every shim anew, for the manager at `govm_path`.
    pub fn rehash(&self, govm_path: &str) -> (shims: Vec<Shim>)
        ensures
            shims.deep_view() == all_shims(self@.shims_dir, govm_path@, managed_binaries()),
    {
        create_all_shims(self.shims_dir.as_str(), govm_path)
    }

    /// Picks the versions to prune: all but the `keep` highest and the
    /// global default. Nothing is removed before [`GoVM::confirm_prune`]
    /// has seen the answer.
    pub fn prune_versions(&self, state: &Snapshot, keep: usize) -> (candidates: Vec<String>)
        ensures
            candidates.deep_view() == prunable(
                listed(state@.entries),
                keep as int,
                marker_version(state@.context.global),
            ),
    {
        let names = get_installed_versions(&state.entries);
        let global = get_global_version(&state.context.global);
        let mut candidates: Vec<String> = Vec::new();
        let ghost all = names.deep_view();
        let ghost default = global.deep_view();
        let mut i: usize = 0;
        assert(all.take(0) =~= Seq::<Seq<char>>::empty());
        assert(candidates.deep_view() =~= Seq::<Seq<char>>::empty());
        while i < names.len()
            invariant
                i <= names.len(),
                all == names.deep_view(),
                default == global.deep_view(),
                candidates.deep_view() == prunable(all.take(i as int), keep as int, default),
            decreases names.len() - i,
        {
            let name = &names[i];
            assert(all[i as int] == name@);
            assert(all.take(i + 1).drop_last() =~= all.take(i as int));
            assert(all.take(i + 1).last() == name@);
            let is_default = match &global {
                Some(v) => same_text(v.as_str(), name.as_str()),
                None => false,
            };
            if i >= keep && !is_default {
                let ghost before = candidates.deep_view();
                candidates.push(name.clone());
                assert(candidates.deep_view() =~= before.push(name@));
            }
            i += 1;
        }
        assert(all.take(i as int) =~= all);
        candidates
    }

    /// Gives the directories to remove once the user has answered whether
    /// to prune `candidates`: theirs after a yes, none after anything else.
    pub fn confirm_prune(&self, candidates: &Vec<String>, answer: &str) -> (dirs: Vec<String>)
        ensures
            dirs.deep_view() == confirmed_removals(self@, candidates.deep_view(), answer@),
    {
        let mut dirs: Vec<String> = Vec::new();
        let t = trim(answer);
        if !(same_text(t, "y") || same_text(t, "Y")) {
            assert(dirs.deep_view() =~= Seq::<Seq<char>>::empty());
            return dirs;
        }
        let mut i: usize = 0;
        while i < candidates.len()
            invariant
                i <= candidates.len(),
                dirs.len() == i,
                forall|k: int|
                    0 <= k < i ==> (#[trigger] dirs@[k])@ == install_dir(self@, candidates@[k]@),
            decreases candidates.len() - i,
        {
            dirs.push(self.get_version_dir(candidates[i].as_str()));
            i += 1;
        }
        assert(dirs.deep_view() =~= install_dirs(self@, candidates.deep_view()));
        dirs
    }

    /// Picks what to download for `version`, a version in canonical form,
    /// on the platform that Go calls `os` and `arch`.
    pub fn select_download(&self, catalog: &Vec<GoVersion>, version: &str, os: &str, arch: &str) -> (outcome:
        Result<DownloadPlan, GovmError>)
        ensures
            match outcome {
                Ok(plan) => download_for(self@, catalog.deep_view(), version@, os@, arch@) == Ok::<
                    DownloadPlanView,
                    ErrorView,
                >(plan@),
                Err(error) => download_for(self@, catalog.deep_view(), version@, os@, arch@)
                    == Err::<DownloadPlanView, ErrorView>(error@),
            },
    {
        let release = match find_release(catalog, version) {
            Some(i) => {
                assert(catalog.deep_view()[i as int] == catalog@[i as int]@);
                &catalog[i]
            },
            None => {
                return Err(GovmError::CatalogEntryMissing { version: String::from_str(version) });
            },
        };
        let file = match find_archive(&release.files, os, arch) {
            Some(k) => {
                assert(release.files.deep_view()[k as int] == release.files@[k as int]@);
                &release.files[k]
            },
            None => {
                return Err(
                    GovmError::NoPlatformBinary {
                        os: String::from_str(os),
                        arch: String::from_str(arch),
                        version: String::from_str(version),
                    },
                );
            },
        };
        let mut url = String::from_str(GO_DOWNLOAD_BASE);
        url.append(file.filename.as_str());
        Ok(
            DownloadPlan {
                version: String::from_str(version),
                url,
                size: file.size,
                archive_path: join_path(self.root_dir.as_str(), file.filename.as_str()),
                temp_dir: join_path(self.root_dir.as_str(), TEMP_DIR_NAME),
                version_dir: self.get_version_dir(version),
            },
        )
    }

    /// Installs `version`, step by step: says what to do after `event`.
    /// After a failure nothing more is written, neither shim nor marker.
    pub fn install_version(&self, state: &Snapshot, version: &str, event: &InstallEvent) -> (step:
        InstallStep)
        ensures
            step@ == install_step(self@, state@, version@, event@),
            event is Failed ==> step is Abort,
    {
        let v = normalize(version);
        match event {
            InstallEvent::Requested => {
                if is_version_installed(&state.entries, v.as_str()) {
                    InstallStep::AlreadyInstalled { version: v }
                } else {
                    InstallStep::FetchCatalog { version: v }
                }
            },
            InstallEvent::Catalog { versions, target_os, target_arch } => {
                let (os, arch) = get_platform(target_os.as_str(), target_arch.as_str());
                match self.select_download(versions, v.as_str(), os, arch) {
                    Ok(plan) => InstallStep::Download { plan },
                    Err(error) => InstallStep::Fail { error },
                }
            },
            InstallEvent::Placed { shims, govm_path } => {
                let writes = ensure_shims(self.shims_dir.as_str(), govm_path.as_str(), shims);
                let names = get_installed_versions(&state.entries);
                let only = names.len() == 1 && same_text(names[0].as_str(), v.as_str());
                proof {
                    let all = names.deep_view();
                    if only {
                        assert(all[0] == names@[0]@);
                        assert(all =~= seq![v@]);
                    } else if all == seq![v@] {
                        assert(all.len() == 1);
                        assert(all[0] == v@);
                        assert(all[0] == names@[0]@);
                    }
                }
                let default = if only {
                    Some(marker(self.global_version_file.clone(), v.as_str()))
                } else {
                    None
                };
                InstallStep::Finish { version: v, shims: writes, default }
            },
            InstallEvent::Failed => InstallStep::Abort,
        }
    }
}

} // verus!
