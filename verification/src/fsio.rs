//! Trusted boundary to the real file system: metadata probes, directory
//! walkers and the execute-permission check.
//!
//! Every wrapper returns plain values. What came back depends on the disk
//! and the moment of the call, so the contracts state only what the
//! called crates' documentation promises of every outcome.

use vstd::prelude::*;

verus! {

/// Plain metadata probed from the real file system.
pub struct FsProbe {
    pub is_file: bool,
    pub is_directory: bool,
    pub is_symlink: bool,
    pub size: u64,
    pub created_secs: Option<i64>,
    pub modified_secs: Option<i64>,
}

/// Relies on `std::path::Path::metadata` (which follows symlinks): size,
/// file type and timestamps of the entry at `path`, nothing on a read
/// error. The probed type is at most one of file, directory or symlink,
/// as std documents the accessors of `FileType` to be mutually exclusive.
#[verifier::external_body]
pub fn fs_metadata(path: &str) -> (r: Option<FsProbe>)
    ensures
        r matches Some(p) ==> !(p.is_file && p.is_directory) && !(p.is_file && p.is_symlink) && !(
        p.is_directory && p.is_symlink),
{
    let m = std::path::Path::new(path).metadata().ok()?;
    let epoch = std::time::UNIX_EPOCH;
    let secs = |t: std::time::SystemTime| t.duration_since(epoch).ok().map(|d| d.as_secs() as i64);
    Some(
        FsProbe {
            is_file: m.is_file(),
            is_directory: m.is_dir(),
            is_symlink: m.file_type().is_symlink(),
            size: m.len(),
            created_secs: m.created().ok().and_then(secs),
            modified_secs: m.modified().ok().and_then(secs),
        },
    )
}

/// Relies on `walkdir::WalkDir`: walks `root` depth-first and yields the
/// path of every entry it can read; entries that error during traversal
/// are skipped.
#[verifier::external_body]
pub fn walk_dir_paths(root: &str) -> (r: Vec<String>) {
    walkdir::WalkDir::new(root).into_iter().flatten().map(
        |e| e.path().to_string_lossy().to_string(),
    ).collect()
}

/// Relies on `ignore::WalkBuilder`: walks `root` honoring `.gitignore`,
/// `.ignore` and the named per-directory ignore-globs file, optionally
/// skipping hidden entries; yields entry paths, skipping entries that
/// error during traversal.
#[verifier::external_body]
pub fn smart_ignore_paths(root: &str, ignore_globs_conf_file: &str, ignore_hidden: bool) -> (r: Vec<
    String,
>) {
    let mut builder = ignore::WalkBuilder::new(root);
    builder.hidden(ignore_hidden);
    builder.add_custom_ignore_filename(ignore_globs_conf_file);
    builder.build().flatten().map(|e| e.path().to_string_lossy().to_string()).collect()
}

/// Relies on `is_executable::IsExecutable::is_executable`: whether the OS
/// reports the entry at `path` as executable by the current user.
#[verifier::external_body]
pub fn path_is_executable(path: &str) -> (r: bool) {
    is_executable::IsExecutable::is_executable(std::path::Path::new(path))
}

/// Relies on `std::path::Path::canonicalize`: the absolute, symlink-free
/// form of `path` when the OS can resolve it, nothing otherwise.
#[verifier::external_body]
pub fn canonicalize_path(path: &str) -> (r: Option<String>) {
    std::path::Path::new(path).canonicalize().ok().map(|p| p.to_string_lossy().to_string())
}

} // verus!
