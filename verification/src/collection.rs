//! The collection façade: wires an enumerator's entries to the
//! classifier and exposes the derived streams of encounter outcomes,
//! capturable executables and uniform resources.
//!
//! Each derived stream reclassifies per item from an empty class; the
//! classifier is read-only after construction.

use vstd::prelude::*;
use vstd::string::StrSliceExecFns;

use crate::capexec::CapExecView;
use crate::capexec::CapturableExecutable;
use crate::content::ContentResource;
use crate::encounter::meta_consistent;
use crate::encounter::spec_encounter;
use crate::encounter::EncounterableResource;
use crate::encounter::EncounterableResourceView;
use crate::encounter::EncounteredResource;
use crate::encounter::EncounteredView;
use crate::encounter::MetaView;
use crate::flags::EncounterableResourceFlags;
use crate::fsio::canonicalize_path;
use crate::fsio::smart_ignore_paths;
use crate::fsio::walk_dir_paths;
use crate::rules::spec_classify;
use crate::rules::ClassView;
use crate::rules::EncounterableResourceClass;
use crate::rules::EncounterableResourcePathClassifier;
use crate::rules::EncounterableResourceUriClassifier;
use crate::rules::RuleSetView;
use crate::tasks::spec_task_line;
use crate::textutil::spec_is_whitespace;
use crate::uniform::spec_uniform_resource;
use crate::uniform::uniform_resource_of;
use crate::uniform::DispatchError;
use crate::uniform::UniformResource;
use crate::uniform::UniformResourceSupplier;
use crate::uniform::UniformView;
use crate::vfsio::vfs_join;
use crate::vfsio::vfs_physical_root;
use crate::vfsio::vfs_walk;

verus! {

/// The class every stream starts from: no flags, no nature.
pub open spec fn empty_class_view() -> ClassView {
    ClassView {
        flags: EncounterableResourceFlags {
            content_acquirable: false,
            ignore_resource: false,
            capturable_executable: false,
            capturable_sql: false,
        },
        nature: None,
    }
}

/// The views of a list of encounter outcomes.
pub open spec fn encountered_views_of(items: Seq<EncounteredResource<ContentResource>>) -> Seq<
    EncounteredView,
> {
    Seq::new(items.len(), |i: int| items[i]@)
}

/// One encounter outcome is consistent with classifying the resource's
/// URI from an empty class and encountering it: some probe outcome the
/// origin may report and some execute permission explain it.
pub open spec fn encountered_item_ok(
    rules: RuleSetView,
    er: EncounterableResourceView,
    item: EncounteredView,
) -> bool {
    exists|meta: Option<MetaView>, executable: bool|
        meta_consistent(er, meta) && item == #[trigger] spec_encounter(
            er,
            spec_classify(rules, er.spec_uri(), empty_class_view()).class,
            meta,
            executable,
        )
}

/// Every outcome of `items` is the encounter of the matching entry of
/// `ers`, classified under `rules`.
pub open spec fn encountered_seq_ok(
    rules: RuleSetView,
    ers: Seq<EncounterableResourceView>,
    items: Seq<EncounteredView>,
) -> bool {
    &&& items.len() == ers.len()
    &&& forall|i: int| 0 <= i < ers.len() ==> encountered_item_ok(rules, ers[i], #[trigger] items[i])
}

/// The ignored outcomes of a stream, in order.
pub open spec fn spec_ignored(items: Seq<EncounteredView>) -> Seq<EncounteredView>
    decreases items.len(),
{
    if items.len() == 0 {
        Seq::empty()
    } else {
        let head: Seq<EncounteredView> = if items[0] is Ignored {
            seq![items[0]]
        } else {
            Seq::empty()
        };
        head + spec_ignored(items.drop_first())
    }
}

/// The outcomes of a stream that are not ignored, in order.
pub open spec fn spec_not_ignored(items: Seq<EncounteredView>) -> Seq<EncounteredView>
    decreases items.len(),
{
    if items.len() == 0 {
        Seq::empty()
    } else {
        let head: Seq<EncounteredView> = if !(items[0] is Ignored) {
            seq![items[0]]
        } else {
            Seq::empty()
        };
        head + spec_not_ignored(items.drop_first())
    }
}

/// The capturable executables of a stream, in order.
pub open spec fn spec_capturable_executables(items: Seq<EncounteredView>) -> Seq<CapExecView>
    decreases items.len(),
{
    if items.len() == 0 {
        Seq::empty()
    } else {
        let head: Seq<CapExecView> = match items[0] {
            EncounteredView::CapturableExec(_, ce, _) => seq![ce],
            _ => Seq::empty(),
        };
        head + spec_capturable_executables(items.drop_first())
    }
}

/// The uniform resources of a stream, in order: materialized resources
/// are dispatched by nature, capturable executables are wrapped without
/// being executed, and the other outcomes are dropped.
pub open spec fn spec_uniform_stream(items: Seq<EncounteredView>) -> Seq<
    Result<UniformView, Seq<char>>,
>
    decreases items.len(),
{
    if items.len() == 0 {
        Seq::empty()
    } else {
        let head: Seq<Result<UniformView, Seq<char>>> = match items[0] {
            EncounteredView::Resource(cr, _) => seq![spec_uniform_resource(cr)],
            EncounteredView::CapturableExec(cr, ce, _) => seq![
                Ok::<UniformView, Seq<char>>(UniformView::CapturableExec(cr, ce)),
            ],
            _ => Seq::empty(),
        };
        head + spec_uniform_stream(items.drop_first())
    }
}

/// The views of a list of dispatch results: a success reduces to the
/// uniform view, a failure to the URI it names.
pub open spec fn uniform_results_of(
    items: Seq<Result<UniformResource<ContentResource>, DispatchError>>,
) -> Seq<Result<UniformView, Seq<char>>> {
    Seq::new(
        items.len(),
        |i: int|
            match items[i] {
                Ok(u) => Ok(u@),
                Err(e) => Err(e.uri@),
            },
    )
}

/// A line of a task list is kept when it is not a `#` comment and not
/// blank.
pub open spec fn spec_line_kept(line: Seq<char>) -> bool {
    &&& !(line.len() > 0 && line[0] == '#')
    &&& exists|i: int| 0 <= i < line.len() && !spec_is_whitespace(#[trigger] line[i])
}

/// The task lines that survive comment and blank filtering, in order.
pub open spec fn spec_kept_lines(lines: Seq<Seq<char>>) -> Seq<Seq<char>>
    decreases lines.len(),
{
    if lines.len() == 0 {
        Seq::empty()
    } else {
        let tail: Seq<Seq<char>> = if spec_line_kept(lines.last()) {
            seq![lines.last()]
        } else {
            Seq::empty()
        };
        spec_kept_lines(lines.drop_last()) + tail
    }
}

/// Whether a task line is kept: not a `#` comment, not blank.
fn line_kept(line: &str) -> (r: bool)
    ensures
        r == spec_line_kept(line@),
{
    let len = line.unicode_len();
    if len > 0 {
        let first = line.get_char(0);
        if first == '#' {
            return false;
        }
        proof {
            assert(line@[0] != '#');
        }
    }
    let mut i: usize = 0;
    while i < len
        invariant
            0 <= i <= len,
            len == line@.len(),
            !(line@.len() > 0 && line@[0] == '#'),
            forall|k: int| 0 <= k < i ==> spec_is_whitespace(#[trigger] line@[k]),
        decreases len - i,
    {
        if !line.get_char(i).is_whitespace() {
            proof {
                assert(!spec_is_whitespace(line@[i as int]));
                assert(!(line@.len() > 0 && line@[0] == '#'));
                assert(spec_line_kept(line@));
            }
            return true;
        }
        i = i + 1;
    }
    false
}

/// A collection of encounterable resources together with the classifier
/// that triages them.
pub struct ResourcesCollection {
    pub encounterable: Vec<EncounterableResource>,
    pub classifier: EncounterableResourcePathClassifier,
}

impl ResourcesCollection {
    /// The views of the collection's entries.
    pub open spec fn entries_view(&self) -> Seq<EncounterableResourceView> {
        Seq::new(self.encounterable@.len(), |i: int| self.encounterable@[i]@)
    }

    /// Wraps the given entries and classifier.
    pub fn new(
        encounterable: Vec<EncounterableResource>,
        classifier: EncounterableResourcePathClassifier,
    ) -> (r: ResourcesCollection)
        ensures
            r.encounterable == encounterable,
            r.classifier == classifier,
    {
        ResourcesCollection { encounterable, classifier }
    }

    /// Walks each root with the plain file-system walker; every entry
    /// becomes a walker-origin resource.
    pub fn from_walk_dir(fs_root_paths: &[String], classifier: EncounterableResourcePathClassifier)
        -> (r: ResourcesCollection)
        ensures
            r.classifier == classifier,
            forall|i: int|
                0 <= i < r.entries_view().len() ==> (#[trigger] r.entries_view()[i]) is WalkDir,
    {
        let mut encounterable: Vec<EncounterableResource> = Vec::new();
        let mut root_idx: usize = 0;
        while root_idx < fs_root_paths.len()
            invariant
                forall|i: int|
                    0 <= i < encounterable@.len() ==> (#[trigger] encounterable@[i]@) is WalkDir,
            decreases fs_root_paths.len() - root_idx,
        {
            let mut paths = walk_dir_paths(fs_root_paths[root_idx].as_str());
            let mut remaining = paths;
            while remaining.len() > 0
                invariant
                    forall|i: int|
                        0 <= i < encounterable@.len() ==> (#[trigger] encounterable@[i]@) is WalkDir,
                decreases remaining.len(),
            {
                let path = remaining.remove(0);
                encounterable.push(EncounterableResource::from_walk_dir_path(path));
            }
            root_idx = root_idx + 1;
        }
        ResourcesCollection { encounterable, classifier }
    }

    /// Walks each root with the ignore-aware walker (honoring
    /// `.gitignore`-style files and the named per-directory ignore-globs
    /// file); every entry becomes an ignore-aware resource.
    pub fn from_smart_ignore(
        fs_root_paths: &[String],
        classifier: EncounterableResourcePathClassifier,
        ignore_globs_conf_file: &str,
        ignore_hidden: bool,
    ) -> (r: ResourcesCollection)
        ensures
            r.classifier == classifier,
            forall|i: int|
                0 <= i < r.entries_view().len() ==> (#[trigger] r.entries_view()[i]) is SmartIgnore,
    {
        let mut encounterable: Vec<EncounterableResource> = Vec::new();
        let mut root_idx: usize = 0;
        while root_idx < fs_root_paths.len()
            invariant
                forall|i: int|
                    0 <= i < encounterable@.len() ==> (#[trigger] encounterable@[i]@) is SmartIgnore,
            decreases fs_root_paths.len() - root_idx,
        {
            let mut remaining = smart_ignore_paths(
                fs_root_paths[root_idx].as_str(),
                ignore_globs_conf_file,
                ignore_hidden,
            );
            while remaining.len() > 0
                invariant
                    forall|i: int|
                        0 <= i < encounterable@.len() ==> (#[trigger] encounterable@[i]@) is SmartIgnore,
                decreases remaining.len(),
            {
                let path = remaining.remove(0);
                encounterable.push(EncounterableResource::from_smart_ignore_path(path));
            }
            root_idx = root_idx + 1;
        }
        ResourcesCollection { encounterable, classifier }
    }

    /// Mounts the OS file system as a virtual file system and walks each
    /// root below it; roots are canonicalized first (the original text is
    /// used when canonicalization fails), and a root that cannot be
    /// resolved contributes nothing.
    pub fn from_vfs_physical_fs(
        fs_root_paths: &[String],
        classifier: EncounterableResourcePathClassifier,
    ) -> (r: ResourcesCollection)
        ensures
            r.classifier == classifier,
            forall|i: int| 0 <= i < r.entries_view().len() ==> (#[trigger] r.entries_view()[i]) is Vfs,
    {
        let vfs_fs_root = vfs_physical_root();
        let mut encounterable: Vec<EncounterableResource> = Vec::new();
        let mut root_idx: usize = 0;
        while root_idx < fs_root_paths.len()
            invariant
                forall|i: int|
                    0 <= i < encounterable@.len() ==> (#[trigger] encounterable@[i]@) is Vfs,
            decreases fs_root_paths.len() - root_idx,
        {
            let root_orig = fs_root_paths[root_idx].as_str();
            let root_path: String = match canonicalize_path(root_orig) {
                Some(canonical) => canonical,
                None => root_orig.to_owned(),
            };
            let root_str = root_path.as_str();
            let len = root_str.unicode_len();
            let rel = if len > 0 && root_str.get_char(0) == '/' {
                root_str.substring_char(1, len)
            } else {
                root_str
            };
            match vfs_join(&vfs_fs_root, rel) {
                Some(joined) => {
                    let mut remaining = vfs_walk(&joined);
                    while remaining.len() > 0
                        invariant
                            forall|i: int|
                                0 <= i < encounterable@.len() ==> (#[trigger] encounterable@[i]@) is Vfs,
                        decreases remaining.len(),
                    {
                        let path = remaining.remove(0);
                        encounterable.push(EncounterableResource::from_vfs(path));
                    }
                },
                None => {},
            }
            root_idx = root_idx + 1;
        }
        ResourcesCollection { encounterable, classifier }
    }

    /// Filters out comment and blank task lines and parses the rest:
    /// returns the kept lines and the collection of their task-line
    /// resources, in input order.
    pub fn from_tasks_lines(
        tasks: &[String],
        classifier: EncounterableResourcePathClassifier,
    ) -> (r: (Vec<String>, ResourcesCollection))
        ensures
            r.0.deep_view() == spec_kept_lines(tasks.deep_view()),
            r.1.classifier == classifier,
            r.1.entries_view().len() == spec_kept_lines(tasks.deep_view()).len(),
            forall|i: int|
                0 <= i < r.1.entries_view().len() ==> (#[trigger] r.1.entries_view()[i])
                    == EncounterableResourceView::DenoTaskShellLine(
                    spec_task_line(spec_kept_lines(tasks.deep_view())[i]).0,
                    spec_task_line(spec_kept_lines(tasks.deep_view())[i]).1,
                    spec_task_line(spec_kept_lines(tasks.deep_view())[i]).2,
                ),
    {
        let ghost lines = tasks.deep_view();
        let mut kept: Vec<String> = Vec::new();
        let mut encounterable: Vec<EncounterableResource> = Vec::new();
        let mut i: usize = 0;
        while i < tasks.len()
            invariant
                0 <= i <= tasks.len(),
                lines == tasks.deep_view(),
                lines.len() == tasks.len(),
                forall|j: int| 0 <= j < tasks.len() ==> lines[j] == #[trigger] tasks[j]@,
                kept.deep_view() == spec_kept_lines(lines.take(i as int)),
                encounterable@.len() == spec_kept_lines(lines.take(i as int)).len(),
                forall|j: int|
                    0 <= j < encounterable@.len() ==> (#[trigger] encounterable@[j]@)
                        == EncounterableResourceView::DenoTaskShellLine(
                        spec_task_line(spec_kept_lines(lines.take(i as int))[j]).0,
                        spec_task_line(spec_kept_lines(lines.take(i as int))[j]).1,
                        spec_task_line(spec_kept_lines(lines.take(i as int))[j]).2,
                    ),
            decreases tasks.len() - i,
        {
            let line = &tasks[i];
            proof {
                assert(lines.take(i + 1).drop_last() =~= lines.take(i as int));
                assert(lines.take(i + 1).last() == lines[i as int]);
            }
            if line_kept(line.as_str()) {
                kept.push(line.clone());
                encounterable.push(EncounterableResource::from_deno_task_shell_line(line.as_str()));
                proof {
                    assert(kept.deep_view() =~~= spec_kept_lines(lines.take(i + 1)));
                }
            }
            i = i + 1;
        }
        proof {
            assert(lines.take(lines.len() as int) =~= lines);
        }
        (kept, ResourcesCollection { encounterable, classifier })
    }

    /// Classifies and encounters every entry, in order: each item is the
    /// encounter of its entry under a fresh empty class.
    pub fn encountered(&self) -> (r: Vec<EncounteredResource<ContentResource>>)
        ensures
            encountered_seq_ok(self.classifier@, self.entries_view(), encountered_views_of(r@)),
    {
        let mut out: Vec<EncounteredResource<ContentResource>> = Vec::new();
        let mut i: usize = 0;
        while i < self.encounterable.len()
            invariant
                0 <= i <= self.encounterable.len(),
                out@.len() == i,
                forall|j: int|
                    0 <= j < i ==> encountered_item_ok(
                        self.classifier@,
                        self.entries_view()[j],
                        #[trigger] encountered_views_of(out@)[j],
                    ),
            decreases self.encounterable.len() - i,
        {
            let er = &self.encounterable[i];
            let uri = er.uri();
            let mut ero = EncounterableResourceClass::empty();
            proof {
                assert(ero@ == empty_class_view());
            }
            self.classifier.classify(uri.as_str(), &mut ero);
            let item = er.encountered(&ero);
            let ghost item_view = item@;
            let ghost out_pre = encountered_views_of(out@);
            out.push(item);
            proof {
                assert(encountered_views_of(out@) =~= out_pre.push(item_view));
                assert(encountered_item_ok(
                    self.classifier@,
                    self.entries_view()[i as int],
                    item_view,
                ));
                assert forall|j: int| 0 <= j < i + 1 implies encountered_item_ok(
                    self.classifier@,
                    self.entries_view()[j],
                    #[trigger] encountered_views_of(out@)[j],
                ) by {
                    if j < i {
                        assert(encountered_views_of(out@)[j] == out_pre[j]);
                    } else {
                        assert(encountered_views_of(out@)[j] == item_view);
                    }
                }
            }
            i = i + 1;
        }
        out
    }

    /// The encounter outcomes that were ignored, in order.
    pub fn ignored(&self) -> (r: Vec<EncounteredResource<ContentResource>>)
        ensures
            exists|all: Seq<EncounteredView>|
                #[trigger] encountered_seq_ok(self.classifier@, self.entries_view(), all)
                    && encountered_views_of(r@) == spec_ignored(all),
    {
        let items = self.encountered();
        let ghost all = encountered_views_of(items@);
        let mut remaining = items;
        let mut out: Vec<EncounteredResource<ContentResource>> = Vec::new();
        while remaining.len() > 0
            invariant
                spec_ignored(all) == encountered_views_of(out@) + spec_ignored(
                    encountered_views_of(remaining@),
                ),
            decreases remaining.len(),
        {
            let ghost pre = encountered_views_of(remaining@);
            let item = remaining.remove(0);
            let ghost is_it = item@ is Ignored;
            proof {
                assert(encountered_views_of(remaining@) =~= pre.drop_first());
                assert(pre[0] == item@);
            }
            let keep = match &item {
                EncounteredResource::Ignored(_, _) => true,
                _ => false,
            };
            if keep {
                let ghost out_pre = encountered_views_of(out@);
                out.push(item);
                proof {
                    assert(encountered_views_of(out@) =~= out_pre.push(pre[0]));
                    assert(out_pre.push(pre[0]) =~= out_pre + seq![pre[0]]);
                }
            }
        }
        proof {
            assert(encountered_views_of(remaining@) =~= Seq::<EncounteredView>::empty());
            assert(encountered_views_of(out@) =~= spec_ignored(all));
        }
        out
    }

    /// The encounter outcomes that were not ignored, in order.
    pub fn not_ignored(&self) -> (r: Vec<EncounteredResource<ContentResource>>)
        ensures
            exists|all: Seq<EncounteredView>|
                #[trigger] encountered_seq_ok(self.classifier@, self.entries_view(), all)
                    && encountered_views_of(r@) == spec_not_ignored(all),
    {
        let items = self.encountered();
        let ghost all = encountered_views_of(items@);
        let mut remaining = items;
        let mut out: Vec<EncounteredResource<ContentResource>> = Vec::new();
        while remaining.len() > 0
            invariant
                spec_not_ignored(all) == encountered_views_of(out@) + spec_not_ignored(
                    encountered_views_of(remaining@),
                ),
            decreases remaining.len(),
        {
            let ghost pre = encountered_views_of(remaining@);
            let item = remaining.remove(0);
            proof {
                assert(encountered_views_of(remaining@) =~= pre.drop_first());
                assert(pre[0] == item@);
            }
            let keep = match &item {
                EncounteredResource::Ignored(_, _) => false,
                _ => true,
            };
            if keep {
                let ghost out_pre = encountered_views_of(out@);
                out.push(item);
                proof {
                    assert(encountered_views_of(out@) =~= out_pre.push(pre[0]));
                    assert(out_pre.push(pre[0]) =~= out_pre + seq![pre[0]]);
                }
            }
        }
        proof {
            assert(encountered_views_of(remaining@) =~= Seq::<EncounteredView>::empty());
            assert(encountered_views_of(out@) =~= spec_not_ignored(all));
        }
        out
    }

    /// The capturable executables among the encounter outcomes, in
    /// order.
    pub fn capturable_executables(&self) -> (r: Vec<CapturableExecutable>)
        ensures
            exists|all: Seq<EncounteredView>|
                #[trigger] encountered_seq_ok(self.classifier@, self.entries_view(), all)
                    && capexec_views_of(r@) == spec_capturable_executables(all),
    {
        let items = self.encountered();
        let ghost all = encountered_views_of(items@);
        let mut remaining = items;
        let mut out: Vec<CapturableExecutable> = Vec::new();
        while remaining.len() > 0
            invariant
                spec_capturable_executables(all) == capexec_views_of(out@)
                    + spec_capturable_executables(encountered_views_of(remaining@)),
            decreases remaining.len(),
        {
            let ghost pre = encountered_views_of(remaining@);
            let item = remaining.remove(0);
            proof {
                assert(encountered_views_of(remaining@) =~= pre.drop_first());
                assert(pre[0] == item@);
            }
            match item {
                EncounteredResource::CapturableExec(_, ce, _) => {
                    let ghost out_pre = capexec_views_of(out@);
                    let ghost cev = ce@;
                    out.push(ce);
                    proof {
                        assert(capexec_views_of(out@) =~= out_pre.push(cev));
                        assert(out_pre.push(cev) =~= out_pre + seq![cev]);
                    }
                },
                _ => {},
            }
        }
        proof {
            assert(encountered_views_of(remaining@) =~= Seq::<EncounteredView>::empty());
            assert(capexec_views_of(out@) =~= spec_capturable_executables(all));
        }
        out
    }

    /// Dispatches the encounter outcomes to uniform resources, in order:
    /// materialized resources by nature, capturable executables wrapped
    /// without execution; ignored, not-file and not-found outcomes are
    /// dropped, and a dispatch failure is an item of the stream, not its
    /// end.
    pub fn uniform_resources(&self) -> (r: Vec<
        Result<UniformResource<ContentResource>, DispatchError>,
    >)
        ensures
            exists|all: Seq<EncounteredView>|
                #[trigger] encountered_seq_ok(self.classifier@, self.entries_view(), all)
                    && uniform_results_of(r@) == spec_uniform_stream(all),
    {
        let items = self.encountered();
        let ghost all = encountered_views_of(items@);
        let r = uniform_resources_from(items);
        proof {
            assert(encountered_seq_ok(self.classifier@, self.entries_view(), all)
                && uniform_results_of(r@) == spec_uniform_stream(all));
        }
        r
    }
}

/// The views of a list of capturable executables.
pub open spec fn capexec_views_of(items: Seq<CapturableExecutable>) -> Seq<CapExecView> {
    Seq::new(items.len(), |i: int| items[i]@)
}

/// Dispatches a list of encounter outcomes to uniform resources, in
/// order, exactly as `spec_uniform_stream` says of the outcomes' views.
pub fn uniform_resources_from(items: Vec<EncounteredResource<ContentResource>>) -> (r: Vec<
    Result<UniformResource<ContentResource>, DispatchError>,
>)
    ensures
        uniform_results_of(r@) == spec_uniform_stream(encountered_views_of(items@)),
{
    let ghost all = encountered_views_of(items@);
    let mut remaining = items;
    let mut out: Vec<Result<UniformResource<ContentResource>, DispatchError>> = Vec::new();
    while remaining.len() > 0
        invariant
            spec_uniform_stream(all) == uniform_results_of(out@) + spec_uniform_stream(
                encountered_views_of(remaining@),
            ),
        decreases remaining.len(),
    {
        let ghost pre = encountered_views_of(remaining@);
        let item = remaining.remove(0);
        proof {
            assert(encountered_views_of(remaining@) =~= pre.drop_first());
            assert(pre[0] == item@);
        }
        match item {
            EncounteredResource::Resource(resource, _) => {
                let ghost crv = resource@;
                let ghost out_pre = uniform_results_of(out@);
                match uniform_resource_of(resource) {
                    Ok(uniform_resource) => {
                        out.push(Ok(*uniform_resource));
                    },
                    Err(e) => {
                        out.push(Err(e));
                    },
                }
                proof {
                    assert(uniform_results_of(out@) =~= out_pre + seq![
                        spec_uniform_resource(crv),
                    ]);
                }
            },
            EncounteredResource::CapturableExec(resource, executable, _) => {
                let ghost crv = resource@;
                let ghost cev = executable@;
                let ghost out_pre = uniform_results_of(out@);
                out.push(
                    Ok(
                        UniformResource::CapturableExec(
                            crate::uniform::CapturableExecResource { resource, executable },
                        ),
                    ),
                );
                proof {
                    assert(uniform_results_of(out@) =~= out_pre + seq![
                        Ok::<UniformView, Seq<char>>(UniformView::CapturableExec(crv, cev)),
                    ]);
                }
            },
            EncounteredResource::Ignored(_, _) => {},
            EncounteredResource::NotFile(_, _) => {},
            EncounteredResource::NotFound(_, _) => {},
        }
    }
    proof {
        assert(encountered_views_of(remaining@) =~= Seq::<EncounteredView>::empty());
        assert(uniform_results_of(out@) =~= spec_uniform_stream(all));
    }
    out
}

impl UniformResourceSupplier<ContentResource> for ResourcesCollection {
    /// Dispatches one materialized resource to its typed uniform
    /// variant, exactly as `spec_uniform_resource` says.
    fn uniform_resource(&self, rs: ContentResource) -> (r: Result<
        Box<UniformResource<ContentResource>>,
        DispatchError,
    >)
        ensures
            r matches Ok(u) ==> spec_uniform_resource(rs@) == Ok::<UniformView, Seq<char>>(u@),
            r matches Err(e) ==> rs@.nature is None && e.uri@ == rs@.uri,
    {
        uniform_resource_of(rs)
    }
}


} // verus!
