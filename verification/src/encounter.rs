//! Encounterable resources and the encounter state machine.
//!
//! An encounterable resource names one entry of an enumerable source: a
//! plain walk of the real file system, an ignore-aware walk, a virtual
//! file system, or a task-shell line. The encounter step combines the
//! classifier's verdict with the probed metadata into one of five
//! outcomes: ignored, not found, not a file, a materialized resource, or
//! a capturable executable.

use vstd::prelude::*;

use crate::capexec::CapExecView;
use crate::capexec::CapturableExecutable;
use crate::capexec::ShellExecutiveSpec;
use crate::capexec::ShellExecutiveSpecView;
use crate::capexec::spec_from_executable_file_path;
use crate::capexec::spec_from_executable_file_uri;
use crate::content::ContentResource;
use crate::content::ContentResourceView;
use crate::content::EncounteredResourceContentSuppliers;
use crate::flags::ContentResourceFlags;
use crate::flags::EncounteredResourceFlags;
use crate::fsio::fs_metadata;
use crate::rules::ClassView;
use crate::rules::EncounterableResourceClass;
use crate::tasks::parse_task_line;
use crate::tasks::spec_task_line;
use crate::textutil::nature_from_uri;
use crate::textutil::spec_nature_from_uri;
use crate::vfsio::vfs_metadata;
use crate::vfsio::vfs_path_string;

verus! {

/// One entry of an enumerable source. Real file-system entries carry
/// their path, virtual entries carry the path handle and its string
/// form, task lines carry the command, the optional identity and the
/// declared nature.
pub enum EncounterableResource {
    WalkDir(String),
    SmartIgnore(String),
    Vfs(vfs::VfsPath, String),
    DenoTaskShellLine(String, Option<String>, String),
}

/// The mathematical content of an `EncounterableResource`: the virtual
/// path handle reduces to its string form.
pub enum EncounterableResourceView {
    WalkDir(Seq<char>),
    SmartIgnore(Seq<char>),
    Vfs(Seq<char>),
    DenoTaskShellLine(Seq<char>, Option<Seq<char>>, Seq<char>),
}

impl View for EncounterableResource {
    type V = EncounterableResourceView;

    open spec fn view(&self) -> EncounterableResourceView {
        match self {
            EncounterableResource::WalkDir(p) => EncounterableResourceView::WalkDir(p@),
            EncounterableResource::SmartIgnore(p) => EncounterableResourceView::SmartIgnore(p@),
            EncounterableResource::Vfs(_, u) => EncounterableResourceView::Vfs(u@),
            EncounterableResource::DenoTaskShellLine(line, identity, nature) => EncounterableResourceView::DenoTaskShellLine(
                line@,
                identity.deep_view(),
                nature@,
            ),
        }
    }
}

impl EncounterableResourceView {
    /// The resource's stable URI: the entry path, the virtual path's
    /// string form, or the task's identity (falling back to the line).
    pub open spec fn spec_uri(self) -> Seq<char> {
        match self {
            EncounterableResourceView::WalkDir(p) => p,
            EncounterableResourceView::SmartIgnore(p) => p,
            EncounterableResourceView::Vfs(u) => u,
            EncounterableResourceView::DenoTaskShellLine(line, identity, _) => match identity {
                Some(id) => id,
                None => line,
            },
        }
    }

    /// Whether the resource originates on a (real or virtual) file
    /// system.
    pub open spec fn is_filesystem(self) -> bool {
        !(self is DenoTaskShellLine)
    }
}

impl EncounterableResource {
    /// An entry of the plain file-system walker.
    pub fn from_walk_dir_path(path: String) -> (r: EncounterableResource)
        ensures
            r@ == EncounterableResourceView::WalkDir(path@),
    {
        EncounterableResource::WalkDir(path)
    }

    /// An entry of the ignore-aware walker.
    pub fn from_smart_ignore_path(path: String) -> (r: EncounterableResource)
        ensures
            r@ == EncounterableResourceView::SmartIgnore(path@),
    {
        EncounterableResource::SmartIgnore(path)
    }

    /// An entry of a virtual file system, identified by its path's
    /// string form.
    pub fn from_vfs(path: vfs::VfsPath) -> (r: EncounterableResource)
        ensures
            r@ is Vfs,
    {
        let uri = vfs_path_string(&path);
        EncounterableResource::Vfs(path, uri)
    }

    /// Parses a task line: a JSON object supplies command, identity and
    /// nature by the task-line grammar; any other line is the command
    /// itself with the default nature `json`.
    pub fn from_deno_task_shell_line(line: &str) -> (r: EncounterableResource)
        ensures
            r@ == EncounterableResourceView::DenoTaskShellLine(
                spec_task_line(line@).0,
                spec_task_line(line@).1,
                spec_task_line(line@).2,
            ),
    {
        let parsed = parse_task_line(line);
        EncounterableResource::DenoTaskShellLine(parsed.0, parsed.1, parsed.2)
    }

    /// The resource's stable URI.
    pub fn uri(&self) -> (r: String)
        ensures
            r@ == self@.spec_uri(),
    {
        match self {
            EncounterableResource::WalkDir(p) => p.clone(),
            EncounterableResource::SmartIgnore(p) => p.clone(),
            EncounterableResource::Vfs(_, u) => u.clone(),
            EncounterableResource::DenoTaskShellLine(line, identity, _) => match identity {
                Some(id) => id.clone(),
                None => line.clone(),
            },
        }
    }
}

/// The error of a metadata probe: the resource's URI.
#[derive(Debug)]
pub struct MetaDataError {
    pub uri: String,
}

/// The metadata of an encountered resource: the probed file-type flags,
/// the nature suggested by the URI's extension (or declared by a task
/// line), the size in bytes, and the timestamps in seconds since the
/// Unix epoch, where the origin offers them.
pub struct EncounteredResourceMetaData {
    pub flags: EncounteredResourceFlags,
    pub nature: Option<String>,
    pub file_size: u64,
    pub created_at: Option<i64>,
    pub last_modified_at: Option<i64>,
}

/// The mathematical content of `EncounteredResourceMetaData`.
pub struct MetaView {
    pub flags: EncounteredResourceFlags,
    pub nature: Option<Seq<char>>,
    pub file_size: u64,
    pub created_at: Option<i64>,
    pub last_modified_at: Option<i64>,
}

impl View for EncounteredResourceMetaData {
    type V = MetaView;

    open spec fn view(&self) -> MetaView {
        MetaView {
            flags: self.flags,
            nature: self.nature.deep_view(),
            file_size: self.file_size,
            created_at: self.created_at,
            last_modified_at: self.last_modified_at,
        }
    }
}

/// What a real-file-system probe may report for an entry at `uri`: the
/// extension-suggested nature, no classifier flags, and at most one
/// file-type bit.
pub open spec fn fs_meta_ok(uri: Seq<char>, m: MetaView) -> bool {
    &&& m.nature == spec_nature_from_uri(uri)
    &&& !m.flags.content_acquirable
    &&& !m.flags.ignore_resource
    &&& !m.flags.capturable_executable
    &&& !m.flags.capturable_sql
    &&& !(m.flags.is_file && m.flags.is_directory)
    &&& !(m.flags.is_file && m.flags.is_symlink)
    &&& !(m.flags.is_directory && m.flags.is_symlink)
}

/// What a virtual-file-system probe may report for an entry at `uri`:
/// as a real probe, but the type is exactly file or directory, and no
/// times are available.
pub open spec fn vfs_meta_ok(uri: Seq<char>, m: MetaView) -> bool {
    &&& fs_meta_ok(uri, m)
    &&& m.flags.is_file == !m.flags.is_directory
    &&& !m.flags.is_symlink
    &&& m.created_at is None
    &&& m.last_modified_at is None
}

/// What the metadata probe may report for each kind of resource: task
/// lines always probe successfully, with zero size and their declared
/// nature; file-system probes may fail, and a successful one obeys the
/// origin's probe predicate.
pub open spec fn meta_consistent(er: EncounterableResourceView, meta: Option<MetaView>) -> bool {
    match er {
        EncounterableResourceView::DenoTaskShellLine(_, _, nature) => meta matches Some(m) && {
            &&& m.flags.spec_is_empty()
            &&& m.nature == Some(nature)
            &&& m.file_size == 0
            &&& m.created_at is None
            &&& m.last_modified_at is None
        },
        EncounterableResourceView::WalkDir(p) => match meta {
            Some(m) => fs_meta_ok(p, m),
            None => true,
        },
        EncounterableResourceView::SmartIgnore(p) => match meta {
            Some(m) => fs_meta_ok(p, m),
            None => true,
        },
        EncounterableResourceView::Vfs(u) => match meta {
            Some(m) => vfs_meta_ok(u, m),
            None => true,
        },
    }
}

impl EncounteredResourceMetaData {
    /// Probes a real file-system path: flags from the OS file type, size
    /// and times from the OS metadata, nature from the path's extension.
    pub fn from_fs_path(fs_path: &str) -> (r: Result<EncounteredResourceMetaData, MetaDataError>)
        ensures
            r matches Ok(m) ==> fs_meta_ok(fs_path@, m@),
            r matches Err(e) ==> e.uri@ == fs_path@,
    {
        let probe = match fs_metadata(fs_path) {
            Some(p) => p,
            None => {
                return Err(MetaDataError { uri: fs_path.to_owned() });
            },
        };
        let mut flags = EncounteredResourceFlags::empty();
        flags.is_file = probe.is_file;
        flags.is_directory = probe.is_directory;
        flags.is_symlink = probe.is_symlink;
        Ok(
            EncounteredResourceMetaData {
                flags,
                nature: nature_from_uri(fs_path),
                file_size: probe.size,
                created_at: probe.created_secs,
                last_modified_at: probe.modified_secs,
            },
        )
    }

    /// Probes a virtual file-system path: flags from the virtual file
    /// type, size from the virtual metadata, nature from the extension
    /// of the path's string form; virtual origins offer no times. The
    /// path handle is opaque here, so the probe predicate is stated over
    /// the path's string form without naming it.
    pub fn from_vfs_path(vfs_path: &vfs::VfsPath) -> (r: Result<
        EncounteredResourceMetaData,
        MetaDataError,
    >)
        ensures
            r matches Ok(m) ==> exists|u: Seq<char>| #[trigger] vfs_meta_ok(u, m@),
    {
        let uri = vfs_path_string(vfs_path);
        let r = Self::from_vfs_parts(vfs_path, uri.as_str());
        proof {
            assert(r matches Ok(m) ==> vfs_meta_ok(uri@, m@));
        }
        r
    }

    /// Probes a virtual file-system path whose string form is `uri`.
    fn from_vfs_parts(vfs_path: &vfs::VfsPath, uri: &str) -> (r: Result<
        EncounteredResourceMetaData,
        MetaDataError,
    >)
        ensures
            r matches Ok(m) ==> vfs_meta_ok(uri@, m@),
            r matches Err(e) ==> e.uri@ == uri@,
    {
        let probe = match vfs_metadata(vfs_path) {
            Some(p) => p,
            None => {
                return Err(MetaDataError { uri: uri.to_owned() });
            },
        };
        let mut flags = EncounteredResourceFlags::empty();
        flags.is_file = probe.is_file;
        flags.is_directory = probe.is_directory;
        Ok(
            EncounteredResourceMetaData {
                flags,
                nature: nature_from_uri(uri),
                file_size: probe.size,
                created_at: None,
                last_modified_at: None,
            },
        )
    }
}

impl EncounterableResource {
    /// Probes this resource's metadata: the OS or virtual file system
    /// for file-system origins (which may fail), the declared nature and
    /// zero size for task lines (which never fails).
    pub fn meta_data(&self) -> (r: Result<EncounteredResourceMetaData, MetaDataError>)
        ensures
            r matches Ok(m) ==> meta_consistent(self@, Some(m@)),
            r is Err ==> meta_consistent(self@, None) && self@.is_filesystem(),
    {
        match self {
            EncounterableResource::WalkDir(p) => EncounteredResourceMetaData::from_fs_path(
                p.as_str(),
            ),
            EncounterableResource::SmartIgnore(p) => EncounteredResourceMetaData::from_fs_path(
                p.as_str(),
            ),
            EncounterableResource::Vfs(path, u) => EncounteredResourceMetaData::from_vfs_parts(
                path,
                u.as_str(),
            ),
            EncounterableResource::DenoTaskShellLine(_, _, nature) => Ok(
                EncounteredResourceMetaData {
                    flags: EncounteredResourceFlags::empty(),
                    nature: Some(nature.clone()),
                    file_size: 0,
                    created_at: None,
                    last_modified_at: None,
                },
            ),
        }
    }

    /// Builds this resource's content suppliers: present exactly when
    /// the class carries the content-acquirable flag, except that task
    /// lines never carry suppliers.
    pub fn content_suppliers(&self, options: &EncounterableResourceClass) -> (r:
        EncounteredResourceContentSuppliers)
        ensures
            self@.is_filesystem() ==> (r.binary is Some <==> options@.flags.content_acquirable) && (
            r.text is Some <==> options@.flags.content_acquirable),
            !self@.is_filesystem() ==> r.binary is None && r.text is None,
    {
        match self {
            EncounterableResource::WalkDir(p) => EncounteredResourceContentSuppliers::from_fs_path(
                p.as_str(),
                options,
            ),
            EncounterableResource::SmartIgnore(p) => EncounteredResourceContentSuppliers::from_fs_path(
                p.as_str(),
                options,
            ),
            EncounterableResource::Vfs(path, _) => EncounteredResourceContentSuppliers::from_vfs_path(
                path,
                options,
            ),
            EncounterableResource::DenoTaskShellLine(_, _, _) => EncounteredResourceContentSuppliers {
                text: None,
                binary: None,
            },
        }
    }
}

/// A tagged encounter outcome, carrying the originating class.
pub enum EncounteredResource<T> {
    Ignored(String, EncounterableResourceClass),
    NotFound(String, EncounterableResourceClass),
    NotFile(String, EncounterableResourceClass),
    Resource(T, EncounterableResourceClass),
    CapturableExec(T, CapturableExecutable, EncounterableResourceClass),
}

/// The mathematical content of an encounter outcome.
pub enum EncounteredView {
    Ignored(Seq<char>, ClassView),
    NotFound(Seq<char>, ClassView),
    NotFile(Seq<char>, ClassView),
    Resource(ContentResourceView, ClassView),
    CapturableExec(ContentResourceView, CapExecView, ClassView),
}

impl View for EncounteredResource<ContentResource> {
    type V = EncounteredView;

    open spec fn view(&self) -> EncounteredView {
        match self {
            EncounteredResource::Ignored(uri, erc) => EncounteredView::Ignored(uri@, erc@),
            EncounteredResource::NotFound(uri, erc) => EncounteredView::NotFound(uri@, erc@),
            EncounteredResource::NotFile(uri, erc) => EncounteredView::NotFile(uri@, erc@),
            EncounteredResource::Resource(cr, erc) => EncounteredView::Resource(cr@, erc@),
            EncounteredResource::CapturableExec(cr, ce, erc) => EncounteredView::CapturableExec(
                cr@,
                ce@,
                erc@,
            ),
        }
    }
}

/// The capturable executable an encounter attaches: for real files the
/// OS execute bit decides between the invokable form and the marker;
/// virtual entries are invokable on the filename pattern alone; task
/// lines are always invokable, under their declared nature.
pub open spec fn spec_capexec_of(
    er: EncounterableResourceView,
    erc: ClassView,
    executable: bool,
) -> CapExecView {
    match er {
        EncounterableResourceView::WalkDir(p) => spec_from_executable_file_path(p, erc, executable),
        EncounterableResourceView::SmartIgnore(p) => spec_from_executable_file_path(
            p,
            erc,
            executable,
        ),
        EncounterableResourceView::Vfs(u) => spec_from_executable_file_uri(u, erc),
        EncounterableResourceView::DenoTaskShellLine(line, identity, nature) => CapExecView::UriShellExecutive(
            ShellExecutiveSpecView::DenoTaskShell(line, identity),
            line,
            nature,
            erc.flags.capturable_sql,
        ),
    }
}

/// The materialized content resource of a successful encounter: the
/// resource's URI; the classifier's flags carried over unchanged; the
/// nature resolved by precedence (classifier nature, then metadata
/// nature, then the literal `json`); size and times from the metadata;
/// and suppliers exactly for acquirable file-system origins.
pub open spec fn spec_content_resource(
    er: EncounterableResourceView,
    erc: ClassView,
    m: MetaView,
) -> ContentResourceView {
    ContentResourceView {
        flags: ContentResourceFlags {
            content_acquirable: erc.flags.content_acquirable,
            ignore_resource: erc.flags.ignore_resource,
            capturable_executable: erc.flags.capturable_executable,
            capturable_sql: erc.flags.capturable_sql,
        },
        uri: er.spec_uri(),
        nature: Some(
            match erc.nature {
                Some(n) => n,
                None => match m.nature {
                    Some(n) => n,
                    None => "json"@,
                },
            },
        ),
        size: Some(m.file_size),
        created_at: m.created_at,
        last_modified_at: m.last_modified_at,
        has_binary_supplier: er.is_filesystem() && erc.flags.content_acquirable,
        has_text_supplier: er.is_filesystem() && erc.flags.content_acquirable,
    }
}

/// The encounter state machine: an ignored class short-circuits; a
/// failed probe is `NotFound`; a file-system origin that is not a file
/// is `NotFile`; otherwise the content resource is materialized and the
/// outcome is `CapturableExec` for task lines and for classes flagged
/// capturable-executable, else `Resource`.
pub open spec fn spec_encounter(
    er: EncounterableResourceView,
    erc: ClassView,
    meta: Option<MetaView>,
    executable: bool,
) -> EncounteredView {
    let uri = er.spec_uri();
    if erc.flags.ignore_resource {
        EncounteredView::Ignored(uri, erc)
    } else {
        match meta {
            None => EncounteredView::NotFound(uri, erc),
            Some(m) => {
                if er.is_filesystem() && !m.flags.is_file {
                    EncounteredView::NotFile(uri, erc)
                } else {
                    let cr = spec_content_resource(er, erc, m);
                    if !er.is_filesystem() || erc.flags.capturable_executable {
                        EncounteredView::CapturableExec(cr, spec_capexec_of(er, erc, executable), erc)
                    } else {
                        EncounteredView::Resource(cr, erc)
                    }
                }
            },
        }
    }
}

/// The probe outcome as an optional metadata view.
pub open spec fn meta_outcome(meta: &Result<EncounteredResourceMetaData, MetaDataError>) -> Option<
    MetaView,
> {
    match meta {
        Ok(m) => Some(m@),
        Err(_) => None,
    }
}

impl CapturableExecutable {
    /// Builds the capturable executable attached to an encountered
    /// resource, exactly as `spec_capexec_of` says for the probed
    /// execute permission.
    pub fn from_encountered_content(
        er: &EncounterableResource,
        erc: &EncounterableResourceClass,
    ) -> (r: CapturableExecutable)
        ensures
            exists|executable: bool| r@ == #[trigger] spec_capexec_of(er@, erc@, executable),
    {
        match er {
            EncounterableResource::WalkDir(p) => {
                let r = CapturableExecutable::from_executable_file_path(p.as_str(), erc);
                proof {
                    let b = choose|b: bool|
                        r@ == spec_from_executable_file_path(p@, erc@, b);
                    assert(r@ == spec_capexec_of(er@, erc@, b));
                }
                r
            },
            EncounterableResource::SmartIgnore(p) => {
                let r = CapturableExecutable::from_executable_file_path(p.as_str(), erc);
                proof {
                    let b = choose|b: bool|
                        r@ == spec_from_executable_file_path(p@, erc@, b);
                    assert(r@ == spec_capexec_of(er@, erc@, b));
                }
                r
            },
            EncounterableResource::Vfs(_, u) => {
                let r = CapturableExecutable::from_executable_file_uri(u.as_str(), erc);
                proof {
                    assert(r@ == spec_capexec_of(er@, erc@, true));
                }
                r
            },
            EncounterableResource::DenoTaskShellLine(line, identity, nature) => {
                let identity_clone = match identity {
                    Some(id) => Some(id.clone()),
                    None => None,
                };
                let r = CapturableExecutable::UriShellExecutive(
                    ShellExecutiveSpec::DenoTaskShell(line.clone(), identity_clone),
                    line.clone(),
                    nature.clone(),
                    erc.flags.capturable_sql,
                );
                proof {
                    assert(r@ == spec_capexec_of(er@, erc@, true));
                }
                r
            },
        }
    }
}

impl EncounterableResource {
    /// The encounter decision for this resource, its class and a given
    /// probe outcome, exactly as `spec_encounter` says for the probed
    /// execute permission.
    pub fn encountered_with_meta(
        &self,
        erc: &EncounterableResourceClass,
        meta: Result<EncounteredResourceMetaData, MetaDataError>,
    ) -> (r: EncounteredResource<ContentResource>)
        ensures
            exists|executable: bool|
                r@ == #[trigger] spec_encounter(self@, erc@, meta_outcome(&meta), executable),
    {
        let uri = self.uri();
        if erc.flags.ignore_resource {
            let r = EncounteredResource::Ignored(uri, erc.duplicate());
            proof {
                assert(r@ == spec_encounter(
                    self@,
                    erc@,
                    match meta {
                        Ok(m) => Some(m@),
                        Err(_) => None,
                    },
                    true,
                ));
            }
            return r;
        }
        let metadata = match meta {
            Ok(m) => m,
            Err(_) => {
                let r = EncounteredResource::NotFound(uri, erc.duplicate());
                proof {
                    assert(r@ == spec_encounter(self@, erc@, None, true));
                }
                return r;
            },
        };
        let is_filesystem = match self {
            EncounterableResource::DenoTaskShellLine(_, _, _) => false,
            _ => true,
        };
        if is_filesystem && !metadata.flags.is_file {
            let r = EncounteredResource::NotFile(uri, erc.duplicate());
            proof {
                assert(r@ == spec_encounter(self@, erc@, Some(metadata@), true));
            }
            return r;
        }
        let content_suppliers = self.content_suppliers(erc);
        let nature: String = match &erc.nature {
            Some(classification_nature) => classification_nature.clone(),
            None => match &metadata.nature {
                Some(md_nature) => md_nature.clone(),
                None => "json".to_owned(),
            },
        };
        let cr = ContentResource {
            flags: ContentResourceFlags::from_encounterable(erc.flags),
            uri,
            nature: Some(nature),
            size: Some(metadata.file_size),
            created_at: metadata.created_at,
            last_modified_at: metadata.last_modified_at,
            content_binary_supplier: content_suppliers.binary,
            content_text_supplier: content_suppliers.text,
        };
        proof {
            assert(cr@ == spec_content_resource(self@, erc@, metadata@));
        }
        if !is_filesystem || erc.flags.capturable_executable {
            let ce = CapturableExecutable::from_encountered_content(self, erc);
            let r = EncounteredResource::CapturableExec(cr, ce, erc.duplicate());
            proof {
                let b = choose|b: bool| ce@ == spec_capexec_of(self@, erc@, b);
                assert(r@ == spec_encounter(self@, erc@, Some(metadata@), b));
            }
            r
        } else {
            let r = EncounteredResource::Resource(cr, erc.duplicate());
            proof {
                assert(r@ == spec_encounter(self@, erc@, Some(metadata@), true));
            }
            r
        }
    }

    /// Probes this resource's metadata and runs the encounter state
    /// machine on the outcome: the result follows `spec_encounter` for
    /// some probe outcome the origin may report and some execute
    /// permission.
    pub fn encountered(&self, erc: &EncounterableResourceClass) -> (r: EncounteredResource<
        ContentResource,
    >)
        ensures
            exists|meta: Option<MetaView>, executable: bool|
                meta_consistent(self@, meta) && r@ == #[trigger] spec_encounter(
                    self@,
                    erc@,
                    meta,
                    executable,
                ),
    {
        let meta = self.meta_data();
        let ghost meta_view = match meta {
            Ok(ref m) => Some(m@),
            Err(_) => None,
        };
        let r = self.encountered_with_meta(erc, meta);
        proof {
            let b = choose|b: bool| r@ == spec_encounter(self@, erc@, meta_view, b);
            assert(meta_consistent(self@, meta_view) && r@ == spec_encounter(
                self@,
                erc@,
                meta_view,
                b,
            ));
        }
        r
    }
}

/// Law: every materialized resource carries its origin's URI as its own
/// and the probed size from the metadata, whatever the classifier and
/// the probe decided.
pub proof fn lemma_resource_uri_and_size(
    er: EncounterableResourceView,
    erc: ClassView,
    meta: Option<MetaView>,
    executable: bool,
)
    ensures
        spec_encounter(er, erc, meta, executable) matches EncounteredView::Resource(cr, _) ==> {
            &&& cr.uri == er.spec_uri()
            &&& meta matches Some(m) && cr.size == Some(m.file_size)
        },
        spec_encounter(er, erc, meta, executable) matches EncounteredView::CapturableExec(cr, _, _)
            ==> {
            &&& cr.uri == er.spec_uri()
            &&& meta matches Some(m) && cr.size == Some(m.file_size)
        },
{
}

/// Law: for file-system origins, a materialized resource carries both
/// content suppliers exactly when its class carries the
/// content-acquirable flag.
pub proof fn lemma_suppliers_iff_acquirable(
    er: EncounterableResourceView,
    erc: ClassView,
    meta: Option<MetaView>,
    executable: bool,
)
    requires
        er.is_filesystem(),
    ensures
        spec_encounter(er, erc, meta, executable) matches EncounteredView::Resource(cr, _) ==> {
            &&& cr.has_binary_supplier <==> erc.flags.content_acquirable
            &&& cr.has_text_supplier <==> erc.flags.content_acquirable
        },
        spec_encounter(er, erc, meta, executable) matches EncounteredView::CapturableExec(cr, _, _)
            ==> {
            &&& cr.has_binary_supplier <==> erc.flags.content_acquirable
            &&& cr.has_text_supplier <==> erc.flags.content_acquirable
        },
{
}

/// Law: a file-system origin materializes a resource only when the
/// probe reported a regular file; directories and symlinks resolve to
/// `NotFile`.
pub proof fn lemma_resource_only_for_files(
    er: EncounterableResourceView,
    erc: ClassView,
    meta: Option<MetaView>,
    executable: bool,
)
    requires
        er.is_filesystem(),
    ensures
        spec_encounter(er, erc, meta, executable) matches EncounteredView::Resource(_, _) ==> meta
            matches Some(m) && m.flags.is_file,
        spec_encounter(er, erc, meta, executable) matches EncounteredView::CapturableExec(_, _, _)
            ==> meta matches Some(m) && m.flags.is_file,
{
}

} // verus!
