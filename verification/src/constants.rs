//! Where Go is downloaded from.

use vstd::prelude::*;

verus! {

/// The address that the names of the archives are appended to.
pub const GO_DOWNLOAD_BASE: &'static str = "https://go.dev/dl/";

/// The address of the list of all Go versions.
pub const GO_VERSION_LIST: &'static str = "https://go.dev/dl/?mode=json&include=all";

/// The kind of file that holds a whole Go distribution.
pub const ARCHIVE_KIND: &'static str = "archive";

/// The name of the directory that an archive is unpacked into before the
/// distribution takes its place among the versions.
pub const TEMP_DIR_NAME: &'static str = "temp_extract";

/// The name of the environment variable that tells a toolchain binary
/// where its distribution stands.
pub const RUNTIME_ROOT_VARIABLE: &'static str = "GOROOT";

} // verus!
