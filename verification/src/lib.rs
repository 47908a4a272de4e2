//! A shim-based version manager for the Go toolchain: which version applies,
//! which versions are installed, and how toolchain calls are redirected.

pub mod constants;
pub mod download;
pub mod error;
pub mod govm;
pub mod home;
pub mod key;
pub mod order;
pub mod paths;
pub mod pattern;
pub mod plan;
pub mod registry;
pub mod resolve;
pub mod shim;
pub mod text;
pub mod types;
pub mod version;
