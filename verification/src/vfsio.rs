//! Trusted boundary to the `vfs` crate: virtual-file-system paths,
//! metadata, walking and whole-file reads.
//!
//! A `vfs::VfsPath` is opaque to the verifier; wrappers carry it through
//! and hand the logic plain values. What a read returns depends on the
//! mounted file system at the moment of the call, so the contracts state
//! only what the crate's source shows of every outcome.

use vstd::prelude::*;

verus! {

#[verifier::external_type_specification]
#[verifier::external_body]
pub struct ExVfsPath(vfs::VfsPath);

/// Plain metadata probed from a virtual file system.
pub struct VfsProbe {
    pub is_file: bool,
    pub is_directory: bool,
    pub size: u64,
}

/// Relies on `vfs::VfsPath::new` over `vfs::PhysicalFS`: the root of a
/// virtual file system mapped onto the OS root directory.
#[verifier::external_body]
pub fn vfs_physical_root() -> (r: vfs::VfsPath) {
    vfs::VfsPath::new(vfs::PhysicalFS::new("/"))
}

/// Relies on `vfs::VfsPath::clone`: another handle to the same path of
/// the same virtual file system.
#[verifier::external_body]
pub fn vfs_clone(p: &vfs::VfsPath) -> (r: vfs::VfsPath) {
    p.clone()
}

/// Relies on `vfs::VfsPath::as_str`: the path's string form within its
/// virtual file system.
#[verifier::external_body]
pub fn vfs_path_string(p: &vfs::VfsPath) -> (r: String) {
    p.as_str().to_string()
}

/// Relies on `vfs::VfsPath::join`: the path extended by `segment` within
/// the same virtual file system, when the segment is valid.
#[verifier::external_body]
pub fn vfs_join(p: &vfs::VfsPath, segment: &str) -> (r: Option<vfs::VfsPath>) {
    p.join(segment).ok()
}

/// Relies on `vfs::VfsPath::metadata`: the entry's file type and length
/// in bytes, nothing on a read error. `vfs::VfsFileType` has exactly the
/// variants file and directory, so the probe is exactly one of the two.
#[verifier::external_body]
pub fn vfs_metadata(p: &vfs::VfsPath) -> (r: Option<VfsProbe>)
    ensures
        r matches Some(m) ==> m.is_file == !m.is_directory,
{
    match p.metadata() {
        Ok(m) => Some(
            VfsProbe {
                is_file: m.file_type == vfs::VfsFileType::File,
                is_directory: m.file_type == vfs::VfsFileType::Directory,
                size: m.len,
            },
        ),
        Err(_) => None,
    }
}

/// Relies on `vfs::VfsPath::walk_dir`: every entry below `p`,
/// depth-first; entries that error during traversal are skipped, and a
/// root that cannot be read yields nothing.
#[verifier::external_body]
pub fn vfs_walk(p: &vfs::VfsPath) -> (r: Vec<vfs::VfsPath>) {
    match p.walk_dir() {
        Ok(iter) => iter.flatten().collect(),
        Err(_) => Vec::new(),
    }
}

/// Relies on `vfs::VfsPath::open_file` and a full read: every byte of
/// the file at `p`, nothing when it cannot be opened or read.
#[verifier::external_body]
pub fn vfs_read_bytes(p: &vfs::VfsPath) -> (r: Option<Vec<u8>>) {
    let mut file = p.open_file().ok()?;
    let mut buf: Vec<u8> = Vec::new();
    std::io::Read::read_to_end(&mut file, &mut buf).ok()?;
    Some(buf)
}

/// Relies on `vfs::VfsPath::read_to_string`: the file's whole contents
/// decoded as UTF-8, nothing when it cannot be read or is not UTF-8.
#[verifier::external_body]
pub fn vfs_read_text(p: &vfs::VfsPath) -> (r: Option<String>) {
    p.read_to_string().ok()
}

} // verus!
