use std::io::Write;

use surveilr_ingest::collection::ResourcesCollection;
use surveilr_ingest::content::BinaryContent;
use surveilr_ingest::content::TextContent;
use surveilr_ingest::encounter::EncounterableResource;
use surveilr_ingest::encounter::EncounteredResource;
use surveilr_ingest::encounter::EncounteredResourceMetaData;
use surveilr_ingest::rules::EncounterableResourceClass;
use surveilr_ingest::rules::EncounterableResourcePathClassifier;
use surveilr_ingest::rules::EncounterableResourcePathRules;
use surveilr_ingest::rules::EncounterableResourceUriClassifier;
use surveilr_ingest::uniform::UniformResource;
use surveilr_ingest::uniform::UriNatureSupplier;

fn default_classifier() -> EncounterableResourcePathClassifier {
    EncounterableResourcePathClassifier::from_path_rules(
        &EncounterableResourcePathRules::default(),
    )
    .unwrap()
}

fn memory_fs_with(files: &[(&str, &str)]) -> vfs::VfsPath {
    let root = vfs::VfsPath::new(vfs::MemoryFS::new());
    for (path, contents) in files {
        let p = root.join(path).unwrap();
        p.parent().create_dir_all().unwrap();
        let mut w = p.create_file().unwrap();
        w.write_all(contents.as_bytes()).unwrap();
    }
    root
}

fn classify_vfs(path: &vfs::VfsPath) -> (EncounterableResource, EncounterableResourceClass) {
    let er = EncounterableResource::from_vfs(path.clone());
    let uri = er.uri();
    let mut class = EncounterableResourceClass::empty();
    default_classifier().classify(uri.as_str(), &mut class);
    (er, class)
}

#[test]
fn markdown_acquire_yields_resource_with_hash() {
    let root = memory_fs_with(&[("README.md", "hi\n")]);
    let (er, class) = classify_vfs(&root.join("README.md").unwrap());
    match er.encountered(&class) {
        EncounteredResource::Resource(cr, erc) => {
            assert_eq!(cr.uri, "/README.md");
            assert_eq!(cr.nature.as_deref(), Some("md"));
            assert_eq!(cr.size, Some(3));
            assert!(cr.flags.content_acquirable);
            assert!(erc.flags.content_acquirable);
            let text = cr.content_text_supplier.as_ref().unwrap().supply().unwrap();
            assert_eq!(text.content_text(), "hi\n");
            assert_eq!(
                text.content_digest_hash(),
                "55ca6286e3e4f4fba5d0448333fa99fc5a404a73"
            );
            let binary = cr.content_binary_supplier.as_ref().unwrap().supply().unwrap();
            assert_eq!(binary.content_binary(), &b"hi\n".to_vec());
            assert_eq!(
                binary.content_digest_hash(),
                "55ca6286e3e4f4fba5d0448333fa99fc5a404a73"
            );
        }
        _ => panic!("expected a materialized resource"),
    }
}

#[test]
fn text_supplier_rereads_identically() {
    let root = memory_fs_with(&[("note.txt", "twice read")]);
    let (er, class) = classify_vfs(&root.join("note.txt").unwrap());
    match er.encountered(&class) {
        EncounteredResource::Resource(cr, _) => {
            let supplier = cr.content_text_supplier.as_ref().unwrap();
            let first = supplier.supply().unwrap();
            let second = supplier.supply().unwrap();
            assert_eq!(first.content_text(), second.content_text());
            assert_eq!(first.content_digest_hash(), second.content_digest_hash());
        }
        _ => panic!("expected a materialized resource"),
    }
}

#[test]
fn suppliers_absent_without_acquire_flag() {
    let root = memory_fs_with(&[("program.rs", "fn main() {}")]);
    let (er, class) = classify_vfs(&root.join("program.rs").unwrap());
    assert!(!class.flags.content_acquirable);
    match er.encountered(&class) {
        EncounteredResource::Resource(cr, _) => {
            assert!(cr.content_text_supplier.is_none());
            assert!(cr.content_binary_supplier.is_none());
            // nature falls back to the extension
            assert_eq!(cr.nature.as_deref(), Some("rs"));
        }
        _ => panic!("expected a materialized resource"),
    }
}

#[test]
fn nature_falls_back_to_json_without_extension() {
    let root = memory_fs_with(&[("LICENSE", "0BSD")]);
    let (er, class) = classify_vfs(&root.join("LICENSE").unwrap());
    match er.encountered(&class) {
        EncounteredResource::Resource(cr, _) => {
            assert_eq!(cr.nature.as_deref(), Some("json"));
        }
        _ => panic!("expected a materialized resource"),
    }
}

#[test]
fn ignored_entry_short_circuits_encounter() {
    let root = memory_fs_with(&[("src/.git/config", "[core]")]);
    let (er, class) = classify_vfs(&root.join("src/.git/config").unwrap());
    match er.encountered(&class) {
        EncounteredResource::Ignored(uri, erc) => {
            assert_eq!(uri, "/src/.git/config");
            assert!(erc.flags.ignore_resource);
            assert!(!erc.flags.content_acquirable);
            assert!(!erc.flags.capturable_executable);
            assert!(!erc.flags.capturable_sql);
        }
        _ => panic!("expected the ignored outcome"),
    }
}

#[test]
fn directory_resolves_to_not_file() {
    let root = memory_fs_with(&[("docs/inner.md", "x")]);
    let (er, class) = classify_vfs(&root.join("docs").unwrap());
    match er.encountered(&class) {
        EncounteredResource::NotFile(uri, _) => {
            assert_eq!(uri, "/docs");
        }
        _ => panic!("expected the not-a-file outcome"),
    }
}

#[test]
fn missing_fs_path_resolves_to_not_found() {
    let er = EncounterableResource::WalkDir("no/such/path-at-all.md".to_string());
    let mut class = EncounterableResourceClass::empty();
    default_classifier().classify("no/such/path-at-all.md", &mut class);
    match er.encountered(&class) {
        EncounteredResource::NotFound(uri, _) => {
            assert_eq!(uri, "no/such/path-at-all.md");
        }
        _ => panic!("expected the not-found outcome"),
    }
}

#[test]
fn task_line_json_object() {
    let er = EncounterableResource::from_deno_task_shell_line(
        "{\"hello\":\"echo hi\",\"nature\":\"text/plain\"}",
    );
    match &er {
        EncounterableResource::DenoTaskShellLine(command, identity, nature) => {
            assert_eq!(command, "echo hi");
            assert_eq!(identity.as_deref(), Some("hello"));
            assert_eq!(nature, "text/plain");
        }
        _ => panic!("expected a task-line resource"),
    }
    assert_eq!(er.uri(), "hello");
}

#[test]
fn task_line_raw_command() {
    let er = EncounterableResource::from_deno_task_shell_line("echo \"Hello, world!\"");
    match &er {
        EncounterableResource::DenoTaskShellLine(command, identity, nature) => {
            assert_eq!(command, "echo \"Hello, world!\"");
            assert!(identity.is_none());
            assert_eq!(nature, "json");
        }
        _ => panic!("expected a task-line resource"),
    }
    assert_eq!(er.uri(), "echo \"Hello, world!\"");
}

#[test]
fn task_line_json_array_is_raw() {
    let er = EncounterableResource::from_deno_task_shell_line("[1,2]");
    match &er {
        EncounterableResource::DenoTaskShellLine(command, identity, nature) => {
            assert_eq!(command, "[1,2]");
            assert!(identity.is_none());
            assert_eq!(nature, "json");
        }
        _ => panic!("expected a task-line resource"),
    }
}

#[test]
fn task_line_always_capturable_exec() {
    let er = EncounterableResource::from_deno_task_shell_line("echo hi");
    let mut class = EncounterableResourceClass::empty();
    default_classifier().classify(er.uri().as_str(), &mut class);
    match er.encountered(&class) {
        EncounteredResource::CapturableExec(cr, ce, _) => {
            assert_eq!(cr.uri, "echo hi");
            assert_eq!(cr.size, Some(0));
            assert_eq!(cr.nature.as_deref(), Some("json"));
            assert!(cr.content_text_supplier.is_none());
            assert!(cr.content_binary_supplier.is_none());
            assert_eq!(ce.uri(), "echo hi");
        }
        _ => panic!("expected a capturable executable outcome"),
    }
}

#[test]
fn tasks_lines_filter_comments_and_blanks() {
    let classifier = default_classifier();
    let tasks = vec![
        "# a comment".to_string(),
        "".to_string(),
        "   ".to_string(),
        "echo one".to_string(),
        "{\"two\":\"echo two\"}".to_string(),
    ];
    let (kept, collection) = ResourcesCollection::from_tasks_lines(&tasks, classifier);
    assert_eq!(kept, vec!["echo one".to_string(), "{\"two\":\"echo two\"}".to_string()]);
    assert_eq!(collection.encounterable.len(), 2);
    match &collection.encounterable[1] {
        EncounterableResource::DenoTaskShellLine(command, identity, nature) => {
            assert_eq!(command, "echo two");
            assert_eq!(identity.as_deref(), Some("two"));
            assert_eq!(nature, "json");
        }
        _ => panic!("expected a task-line resource"),
    }
}

#[test]
fn collection_streams_classify_per_item() {
    let root = memory_fs_with(&[
        ("README.md", "hi"),
        ("src/.git/config", "[core]"),
        ("run.surveilr[json].sh", "#!/bin/sh\necho {}"),
        ("Makefile", "all:"),
    ]);
    let mut entries = Vec::new();
    for name in ["/README.md", "/src/.git/config", "/run.surveilr[json].sh", "/Makefile"] {
        entries.push(EncounterableResource::from_vfs(root.join(&name[1..]).unwrap()));
    }
    let collection = ResourcesCollection::new(entries, default_classifier());

    let encountered = collection.encountered();
    assert_eq!(encountered.len(), 4);

    let ignored = collection.ignored();
    assert_eq!(ignored.len(), 1);
    match &ignored[0] {
        EncounteredResource::Ignored(uri, _) => assert_eq!(uri, "/src/.git/config"),
        _ => panic!("expected the ignored outcome"),
    }

    let not_ignored = collection.not_ignored();
    assert_eq!(not_ignored.len(), 3);

    let capturables = collection.capturable_executables();
    assert_eq!(capturables.len(), 1);
    assert_eq!(capturables[0].uri(), "/run.surveilr[json].sh");

    let uniform = collection.uniform_resources();
    // the ignored entry is dropped; markdown, the capturable and the
    // unknown-nature Makefile remain
    assert_eq!(uniform.len(), 3);
    let mut markdown = 0;
    let mut capturable = 0;
    let mut json = 0;
    for item in &uniform {
        match item.as_ref().unwrap() {
            UniformResource::Markdown(md) => {
                markdown += 1;
                assert_eq!(md.resource.uri, "/README.md");
            }
            UniformResource::CapturableExec(ce) => {
                capturable += 1;
                assert_eq!(ce.resource.uri, "/run.surveilr[json].sh");
                assert_eq!(ce.executable.uri(), "/run.surveilr[json].sh");
            }
            UniformResource::Json(j) => {
                // `Makefile` has no extension, so its nature fell back to
                // the literal `json` and it dispatches as JSON
                json += 1;
                assert_eq!(j.resource.uri, "/Makefile");
            }
            _ => panic!("unexpected uniform variant"),
        }
    }
    assert_eq!((markdown, capturable, json), (1, 1, 1));
}

#[test]
fn uniform_resource_uri_and_nature_accessors() {
    let root = memory_fs_with(&[("README.md", "hi")]);
    let (er, class) = classify_vfs(&root.join("README.md").unwrap());
    let collection = ResourcesCollection::new(vec![er], default_classifier());
    let _ = class;
    let uniform = collection.uniform_resources();
    assert_eq!(uniform.len(), 1);
    let u = uniform[0].as_ref().unwrap();
    assert_eq!(u.uri(), "/README.md");
    assert_eq!(u.nature().map(|n| n.as_str()), Some("md"));
}

#[test]
fn vfs_metadata_probe_reports_type_and_size() {
    let root = memory_fs_with(&[("data/report.tap", "ok 1")]);
    let file = root.join("data/report.tap").unwrap();
    let m = EncounteredResourceMetaData::from_vfs_path(&file).unwrap();
    assert!(m.flags.is_file);
    assert!(!m.flags.is_directory);
    assert!(!m.flags.is_symlink);
    assert_eq!(m.file_size, 4);
    assert_eq!(m.nature.as_deref(), Some("tap"));
    assert!(m.created_at.is_none());
    assert!(m.last_modified_at.is_none());
    let dir = root.join("data").unwrap();
    let d = EncounteredResourceMetaData::from_vfs_path(&dir).unwrap();
    assert!(!d.flags.is_file);
    assert!(d.flags.is_directory);
    let missing = root.join("data/absent").unwrap();
    let e = EncounteredResourceMetaData::from_vfs_path(&missing).err().unwrap();
    assert_eq!(e.uri, "/data/absent");
}
