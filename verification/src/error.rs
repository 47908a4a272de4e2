//! What can go wrong, and how it is told.

use vstd::prelude::*;
use vstd::string::StringExecFns;

verus! {

/// The failures of the manager's own decisions.
#[derive(Debug)]
pub enum GovmError {
    /// No home directory is known, so the manager has no place of its own.
    NoHomeDirectory,
    /// The version that was asked for is not installed.
    NotInstalled { version: String },
    /// No override, pin or global default names a version.
    NoVersionConfigured,
    /// The version that applies is not installed.
    VersionNotInstalled { version: String },
    /// The version that applies has no such binary.
    BinaryNotFound { command: String, version: String },
    /// The catalog has no such version.
    CatalogEntryMissing { version: String },
    /// The catalog has the version, but no archive of it for this platform.
    NoPlatformBinary { os: String, arch: String, version: String },
}

/// The mathematical value of a [`GovmError`].
pub enum ErrorView {
    NoHomeDirectory,
    NotInstalled { version: Seq<char> },
    NoVersionConfigured,
    VersionNotInstalled { version: Seq<char> },
    BinaryNotFound { command: Seq<char>, version: Seq<char> },
    CatalogEntryMissing { version: Seq<char> },
    NoPlatformBinary { os: Seq<char>, arch: Seq<char>, version: Seq<char> },
}

impl View for GovmError {
    type V = ErrorView;

    open spec fn view(&self) -> ErrorView {
        match self {
            GovmError::NoHomeDirectory => ErrorView::NoHomeDirectory,
            GovmError::NotInstalled { version } => ErrorView::NotInstalled { version: version@ },
            GovmError::NoVersionConfigured => ErrorView::NoVersionConfigured,
            GovmError::VersionNotInstalled { version } => ErrorView::VersionNotInstalled {
                version: version@,
            },
            GovmError::BinaryNotFound { command, version } => ErrorView::BinaryNotFound {
                command: command@,
                version: version@,
            },
            GovmError::CatalogEntryMissing { version } => ErrorView::CatalogEntryMissing {
                version: version@,
            },
            GovmError::NoPlatformBinary { os, arch, version } => ErrorView::NoPlatformBinary {
                os: os@,
                arch: arch@,
                version: version@,
            },
        }
    }
}

impl DeepView for GovmError {
    type V = ErrorView;

    open spec fn deep_view(&self) -> ErrorView {
        self@
    }
}

/// The words in which a failure is told.
pub open spec fn message_text(error: ErrorView) -> Seq<char> {
    match error {
        ErrorView::NoHomeDirectory => "Could not find home directory"@,
        ErrorView::NotInstalled { version } => "Go "@ + version
            + " is not installed. Run 'govm install "@ + version + "' first."@,
        ErrorView::NoVersionConfigured =>
            "No Go version configured. Run 'govm global <version>' or create a .go-version file"@,
        ErrorView::VersionNotInstalled { version } => "Go "@ + version
            + " is not installed (required by current configuration). Run 'govm install "@
            + version + "'"@,
        ErrorView::BinaryNotFound { command, version } => "Command '"@ + command
            + "' not found in Go "@ + version,
        ErrorView::CatalogEntryMissing { version } => "Version "@ + version + " not found"@,
        ErrorView::NoPlatformBinary { os, arch, version } => "No binary available for "@ + os
            + " "@ + arch + " (Go "@ + version + ")"@,
    }
}

impl GovmError {
    /// The words in which this failure is told.
    pub fn message(&self) -> (text: String)
        ensures
            text@ == message_text(self@),
    {
        match self {
            GovmError::NoHomeDirectory => String::from_str("Could not find home directory"),
            GovmError::NotInstalled { version } => {
                let mut text = String::from_str("Go ");
                text.append(version.as_str());
                text.append(" is not installed. Run 'govm install ");
                text.append(version.as_str());
                text.append("' first.");
                text
            },
            GovmError::NoVersionConfigured => String::from_str(
                "No Go version configured. Run 'govm global <version>' or create a .go-version file",
            ),
            GovmError::VersionNotInstalled { version } => {
                let mut text = String::from_str("Go ");
                text.append(version.as_str());
                text.append(
                    " is not installed (required by current configuration). Run 'govm install ",
                );
                text.append(version.as_str());
                text.append("'");
                text
            },
            GovmError::BinaryNotFound { command, version } => {
                let mut text = String::from_str("Command '");
                text.append(command.as_str());
                text.append("' not found in Go ");
                text.append(version.as_str());
                text
            },
            GovmError::CatalogEntryMissing { version } => {
                let mut text = String::from_str("Version ");
                text.append(version.as_str());
                text.append(" not found");
                text
            },
            GovmError::NoPlatformBinary { os, arch, version } => {
                let mut text = String::from_str("No binary available for ");
                text.append(os.as_str());
                text.append(" ");
                text.append(arch.as_str());
                text.append(" (Go ");
                text.append(version.as_str());
                text.append(")");
                text
            },
        }
    }
}

} // verus!
