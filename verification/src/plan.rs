//! What the manager decides: the writes, removals and calls that carry out
//! a command, and the reports that answer one.

use crate::error::{ErrorView, GovmError};
use crate::registry::{DirEntry, DirEntryView};
use crate::resolve::{Context, ContextView, SelectionSource, SourceView};
use crate::shim::{Shim, ShimFile, ShimFileView, ShimView};
use crate::types::{GoVersion, GoVersionView};
use vstd::prelude::*;

verus! {

/// What was found on disk and in the environment when a command began.
#[derive(Debug)]
pub struct Snapshot {
    /// What the choice of a version depends on.
    pub context: Context,
    /// The listing of the versions directory.
    pub entries: Vec<DirEntry>,
}

/// The mathematical value of a [`Snapshot`].
pub struct SnapshotView {
    pub context: ContextView,
    pub entries: Seq<DirEntryView>,
}

impl View for Snapshot {
    type V = SnapshotView;

    open spec fn view(&self) -> SnapshotView {
        SnapshotView { context: self.context@, entries: self.entries.deep_view() }
    }
}

impl DeepView for Snapshot {
    type V = SnapshotView;

    open spec fn deep_view(&self) -> SnapshotView {
        self@
    }
}

/// A marker file to write: the whole file at `path` becomes `content`.
#[derive(Debug)]
pub struct MarkerWrite {
    pub path: String,
    pub content: String,
}

/// The mathematical value of a [`MarkerWrite`].
pub struct MarkerWriteView {
    pub path: Seq<char>,
    pub content: Seq<char>,
}

impl View for MarkerWrite {
    type V = MarkerWriteView;

    open spec fn view(&self) -> MarkerWriteView {
        MarkerWriteView { path: self.path@, content: self.content@ }
    }
}

impl DeepView for MarkerWrite {
    type V = MarkerWriteView;

    open spec fn deep_view(&self) -> MarkerWriteView {
        self@
    }
}

/// How to switch to a version: install it first where `install` says so,
/// and only then write the marker.
#[derive(Debug)]
pub struct UsePlan {
    pub version: String,
    pub install: bool,
    pub marker: MarkerWrite,
}

/// The mathematical value of a [`UsePlan`].
pub struct UsePlanView {
    pub version: Seq<char>,
    pub install: bool,
    pub marker: MarkerWriteView,
}

impl View for UsePlan {
    type V = UsePlanView;

    open spec fn view(&self) -> UsePlanView {
        UsePlanView { version: self.version@, install: self.install, marker: self.marker@ }
    }
}

/// How to uninstall a version.
#[derive(Debug)]
pub enum UninstallPlan {
    /// The version is not installed: there is nothing to do.
    NotInstalled { version: String },
    /// Remove the directory `dir` with all in it; where `clear_default` is
    /// set, remove the global marker before that.
    Remove { version: String, clear_default: bool, dir: String },
}

/// The mathematical value of an [`UninstallPlan`].
pub enum UninstallPlanView {
    NotInstalled { version: Seq<char> },
    Remove { version: Seq<char>, clear_default: bool, dir: Seq<char> },
}

impl View for UninstallPlan {
    type V = UninstallPlanView;

    open spec fn view(&self) -> UninstallPlanView {
        match self {
            UninstallPlan::NotInstalled { version } => UninstallPlanView::NotInstalled {
                version: version@,
            },
            UninstallPlan::Remove { version, clear_default, dir } => UninstallPlanView::Remove {
                version: version@,
                clear_default: *clear_default,
                dir: dir@,
            },
        }
    }
}

/// A toolchain binary to run: the program at `program`, with the
/// environment variable for the runtime's root set to `goroot`.
#[derive(Debug)]
pub struct ExecPlan {
    pub version: String,
    pub program: String,
    pub goroot: String,
}

/// The mathematical value of an [`ExecPlan`].
pub struct ExecPlanView {
    pub version: Seq<char>,
    pub program: Seq<char>,
    pub goroot: Seq<char>,
}

impl View for ExecPlan {
    type V = ExecPlanView;

    open spec fn view(&self) -> ExecPlanView {
        ExecPlanView { version: self.version@, program: self.program@, goroot: self.goroot@ }
    }
}

/// The answer to the question which binary a command would run.
#[derive(Debug)]
pub enum WhichReport {
    /// The binary at `path`.
    Found { path: String },
    /// The version that applies is not installed.
    NotInstalled { version: String },
    /// The version that applies has no such binary.
    NotFound { command: String, version: String },
    /// No version applies.
    NoVersion,
}

/// The mathematical value of a [`WhichReport`].
pub enum WhichReportView {
    Found { path: Seq<char> },
    NotInstalled { version: Seq<char> },
    NotFound { command: Seq<char>, version: Seq<char> },
    NoVersion,
}

impl View for WhichReport {
    type V = WhichReportView;

    open spec fn view(&self) -> WhichReportView {
        match self {
            WhichReport::Found { path } => WhichReportView::Found { path: path@ },
            WhichReport::NotInstalled { version } => WhichReportView::NotInstalled {
                version: version@,
            },
            WhichReport::NotFound { command, version } => WhichReportView::NotFound {
                command: command@,
                version: version@,
            },
            WhichReport::NoVersion => WhichReportView::NoVersion,
        }
    }
}

/// The version that applies, where it comes from and whether it is
/// installed.
#[derive(Debug)]
pub struct VersionReport {
    pub version: String,
    pub source: SelectionSource,
    pub installed: bool,
}

/// The mathematical value of a [`VersionReport`].
pub struct VersionReportView {
    pub version: Seq<char>,
    pub source: SourceView,
    pub installed: bool,
}

impl View for VersionReport {
    type V = VersionReportView;

    open spec fn view(&self) -> VersionReportView {
        VersionReportView {
            version: self.version@,
            source: self.source@,
            installed: self.installed,
        }
    }
}

impl DeepView for VersionReport {
    type V = VersionReportView;

    open spec fn deep_view(&self) -> VersionReportView {
        self@
    }
}

/// One line of the list of installed versions.
#[derive(Debug)]
pub struct VersionRow {
    pub version: String,
    /// Whether this is the version that applies.
    pub current: bool,
    /// Whether this is the global default.
    pub global: bool,
}

/// The mathematical value of a [`VersionRow`].
pub struct VersionRowView {
    pub version: Seq<char>,
    pub current: bool,
    pub global: bool,
}

impl View for VersionRow {
    type V = VersionRowView;

    open spec fn view(&self) -> VersionRowView {
        VersionRowView { version: self.version@, current: self.current, global: self.global }
    }
}

impl DeepView for VersionRow {
    type V = VersionRowView;

    open spec fn deep_view(&self) -> VersionRowView {
        self@
    }
}

/// One line of the list of versions that can be downloaded.
#[derive(Debug)]
pub struct RemoteRow {
    /// The version, in canonical form.
    pub version: String,
    pub installed: bool,
    /// Whether this is the version that applies.
    pub current: bool,
    pub stable: bool,
}

/// The mathematical value of a [`RemoteRow`].
pub struct RemoteRowView {
    pub version: Seq<char>,
    pub installed: bool,
    pub current: bool,
    pub stable: bool,
}

impl View for RemoteRow {
    type V = RemoteRowView;

    open spec fn view(&self) -> RemoteRowView {
        RemoteRowView {
            version: self.version@,
            installed: self.installed,
            current: self.current,
            stable: self.stable,
        }
    }
}

impl DeepView for RemoteRow {
    type V = RemoteRowView;

    open spec fn deep_view(&self) -> RemoteRowView {
        self@
    }
}

/// What to download and where to put it: fetch `url` into `archive_path`,
/// unpack that into `temp_dir`, and move the distribution from there to
/// `version_dir`.
#[derive(Debug)]
pub struct DownloadPlan {
    pub version: String,
    pub url: String,
    pub size: u64,
    pub archive_path: String,
    pub temp_dir: String,
    pub version_dir: String,
}

/// The mathematical value of a [`DownloadPlan`].
pub struct DownloadPlanView {
    pub version: Seq<char>,
    pub url: Seq<char>,
    pub size: u64,
    pub archive_path: Seq<char>,
    pub temp_dir: Seq<char>,
    pub version_dir: Seq<char>,
}

impl View for DownloadPlan {
    type V = DownloadPlanView;

    open spec fn view(&self) -> DownloadPlanView {
        DownloadPlanView {
            version: self.version@,
            url: self.url@,
            size: self.size,
            archive_path: self.archive_path@,
            temp_dir: self.temp_dir@,
            version_dir: self.version_dir@,
        }
    }
}

/// What has happened so far in an installation.
#[derive(Debug)]
pub enum InstallEvent {
    /// The installation was asked for.
    Requested,
    /// The catalog was fetched, on the platform that Rust calls `target_os`
    /// and `target_arch`.
    Catalog { versions: Vec<GoVersion>, target_os: String, target_arch: String },
    /// The distribution was downloaded and stands in its directory. The
    /// snapshot is taken anew after that; `shims` are the shims as they
    /// are found, and `govm_path` is the path of the running manager.
    Placed { shims: Vec<ShimFile>, govm_path: String },
    /// Fetching, downloading or unpacking failed.
    Failed,
}

/// The mathematical value of an [`InstallEvent`].
pub enum InstallEventView {
    Requested,
    Catalog { versions: Seq<GoVersionView>, target_os: Seq<char>, target_arch: Seq<char> },
    Placed { shims: Seq<ShimFileView>, govm_path: Seq<char> },
    Failed,
}

impl View for InstallEvent {
    type V = InstallEventView;

    open spec fn view(&self) -> InstallEventView {
        match self {
            InstallEvent::Requested => InstallEventView::Requested,
            InstallEvent::Catalog { versions, target_os, target_arch } => InstallEventView::Catalog {
                versions: versions.deep_view(),
                target_os: target_os@,
                target_arch: target_arch@,
            },
            InstallEvent::Placed { shims, govm_path } => InstallEventView::Placed {
                shims: shims.deep_view(),
                govm_path: govm_path@,
            },
            InstallEvent::Failed => InstallEventView::Failed,
        }
    }
}

/// What to do next in an installation.
#[derive(Debug)]
pub enum InstallStep {
    /// Nothing: the version is installed already.
    AlreadyInstalled { version: String },
    /// Fetch the catalog, and come back with it.
    FetchCatalog { version: String },
    /// Download and unpack, and come back when the distribution stands in
    /// its directory.
    Download { plan: DownloadPlan },
    /// Write `shims`, then the global marker where `default` holds one:
    /// after that the installation is done.
    Finish { version: String, shims: Vec<Shim>, default: Option<MarkerWrite> },
    /// Give up with `error`; nothing is written.
    Fail { error: GovmError },
    /// Give up with the failure that was reported; nothing is written.
    Abort,
}

/// The mathematical value of an [`InstallStep`].
pub enum InstallStepView {
    AlreadyInstalled { version: Seq<char> },
    FetchCatalog { version: Seq<char> },
    Download { plan: DownloadPlanView },
    Finish { version: Seq<char>, shims: Seq<ShimView>, default: Option<MarkerWriteView> },
    Fail { error: ErrorView },
    Abort,
}

impl View for InstallStep {
    type V = InstallStepView;

    open spec fn view(&self) -> InstallStepView {
        match self {
            InstallStep::AlreadyInstalled { version } => InstallStepView::AlreadyInstalled {
                version: version@,
            },
            InstallStep::FetchCatalog { version } => InstallStepView::FetchCatalog {
                version: version@,
            },
            InstallStep::Download { plan } => InstallStepView::Download { plan: plan@ },
            InstallStep::Finish { version, shims, default } => InstallStepView::Finish {
                version: version@,
                shims: shims.deep_view(),
                default: default.deep_view(),
            },
            InstallStep::Fail { error } => InstallStepView::Fail { error: error@ },
            InstallStep::Abort => InstallStepView::Abort,
        }
    }
}

} // verus!
