//! The catalog of Go versions as the download site lists it.

use vstd::prelude::*;

verus! {

/// A file of a Go version that can be downloaded.
#[derive(Debug, Clone, PartialEq)]
pub struct GoFile {
    pub filename: String,
    pub os: String,
    pub arch: String,
    pub sha256: String,
    pub size: u64,
    pub kind: String,
}

/// The mathematical value of a [`GoFile`].
pub struct GoFileView {
    pub filename: Seq<char>,
    pub os: Seq<char>,
    pub arch: Seq<char>,
    pub sha256: Seq<char>,
    pub size: u64,
    pub kind: Seq<char>,
}

impl View for GoFile {
    type V = GoFileView;

    open spec fn view(&self) -> GoFileView {
        GoFileView {
            filename: self.filename@,
            os: self.os@,
            arch: self.arch@,
            sha256: self.sha256@,
            size: self.size,
            kind: self.kind@,
        }
    }
}

impl DeepView for GoFile {
    type V = GoFileView;

    open spec fn deep_view(&self) -> GoFileView {
        self@
    }
}

/// A Go version of the catalog, with its files.
#[derive(Debug, Clone, PartialEq)]
pub struct GoVersion {
    pub version: String,
    pub stable: bool,
    pub files: Vec<GoFile>,
}

/// The mathematical value of a [`GoVersion`].
pub struct GoVersionView {
    pub version: Seq<char>,
    pub stable: bool,
    pub files: Seq<GoFileView>,
}

impl View for GoVersion {
    type V = GoVersionView;

    open spec fn view(&self) -> GoVersionView {
        GoVersionView {
            version: self.version@,
            stable: self.stable,
            files: self.files.deep_view(),
        }
    }
}

impl DeepView for GoVersion {
    type V = GoVersionView;

    open spec fn deep_view(&self) -> GoVersionView {
        self@
    }
}

} // verus!
