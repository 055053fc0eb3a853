use std::io::Write;

use surveilr_ingest::content::sha1_hex;
use surveilr_ingest::content::to_hex;
use surveilr_ingest::content::ContentResource;
use surveilr_ingest::flags::ContentResourceFlags;
use surveilr_ingest::flags::EncounterableResourceFlags;
use surveilr_ingest::flags::EncounteredResourceFlags;
use surveilr_ingest::paths::extract_path_info;
use surveilr_ingest::textutil::nature_from_uri;
use surveilr_ingest::textutil::parse_key_val;
use surveilr_ingest::uniform::uniform_resource_of;
use surveilr_ingest::uniform::JsonFormat;
use surveilr_ingest::uniform::JsonableTextSchema;
use surveilr_ingest::uniform::SourceCodeInterpreter;
use surveilr_ingest::uniform::UniformResource;
use surveilr_ingest::uniform::XmlSchema;

#[test]
fn sha1_hex_of_known_text() {
    assert_eq!(sha1_hex(b"hi\n"), "55ca6286e3e4f4fba5d0448333fa99fc5a404a73");
    assert_eq!(sha1_hex(b"").len(), 40);
}

#[test]
fn to_hex_encodes_bytes() {
    assert_eq!(to_hex(&[0x00u8, 0xff, 0x5a]), "00ff5a");
    assert_eq!(to_hex(&[]), "");
}

#[test]
fn flag_bits_are_stable() {
    let mut f = EncounterableResourceFlags::empty();
    assert_eq!(f.bits(), 0);
    f.content_acquirable = true;
    assert_eq!(f.bits(), 1);
    f.ignore_resource = true;
    assert_eq!(f.bits(), 3);
    f.capturable_executable = true;
    f.capturable_sql = true;
    assert_eq!(f.bits(), 15);

    let mut g = EncounteredResourceFlags::from_encounterable(f);
    assert_eq!(g.bits(), 15);
    g.is_file = true;
    assert_eq!(g.bits(), 31);
    g.is_directory = true;
    assert_eq!(g.bits(), 63);
    g.is_symlink = true;
    assert_eq!(g.bits(), 127);

    let c = ContentResourceFlags::from_encounterable(f);
    assert_eq!(c.bits(), 15);

    let truncated = EncounterableResourceFlags::from_bits_truncate(127);
    assert_eq!(truncated.bits(), 15);
    let partial = EncounterableResourceFlags::from_bits_truncate(0b0101);
    assert!(partial.content_acquirable);
    assert!(!partial.ignore_resource);
    assert!(partial.capturable_executable);
    assert!(!partial.capturable_sql);
}

fn resource_with_nature(nature: Option<&str>) -> ContentResource {
    ContentResource {
        flags: ContentResourceFlags::empty(),
        uri: "entry".to_string(),
        nature: nature.map(|n| n.to_string()),
        size: Some(1),
        created_at: None,
        last_modified_at: None,
        content_binary_supplier: None,
        content_text_supplier: None,
    }
}

#[test]
fn dispatch_table_selects_variants() {
    let html = uniform_resource_of(resource_with_nature(Some("text/html"))).unwrap();
    assert!(matches!(*html, UniformResource::Html(_)));

    let json = uniform_resource_of(resource_with_nature(Some("application/json"))).unwrap();
    match *json {
        UniformResource::Json(j) => assert_eq!(j.format, JsonFormat::Json),
        _ => panic!("expected the JSON variant"),
    }
    let jsonc = uniform_resource_of(resource_with_nature(Some("jsonc"))).unwrap();
    match *jsonc {
        UniformResource::Json(j) => assert_eq!(j.format, JsonFormat::JsonWithComments),
        _ => panic!("expected the JSON variant"),
    }

    let tap = uniform_resource_of(resource_with_nature(Some("tap"))).unwrap();
    match *tap {
        UniformResource::JsonableText(j) => {
            assert_eq!(j.schema, JsonableTextSchema::TestAnythingProtocol)
        }
        _ => panic!("expected the jsonable-text variant"),
    }
    let toml = uniform_resource_of(resource_with_nature(Some("application/toml"))).unwrap();
    match *toml {
        UniformResource::JsonableText(j) => assert_eq!(j.schema, JsonableTextSchema::Toml),
        _ => panic!("expected the jsonable-text variant"),
    }
    let yaml = uniform_resource_of(resource_with_nature(Some("yml"))).unwrap();
    match *yaml {
        UniformResource::JsonableText(j) => assert_eq!(j.schema, JsonableTextSchema::Yaml),
        _ => panic!("expected the jsonable-text variant"),
    }

    let ts = uniform_resource_of(resource_with_nature(Some("ts"))).unwrap();
    match *ts {
        UniformResource::SourceCode(s) => {
            assert_eq!(s.interpreter, SourceCodeInterpreter::TypeScript)
        }
        _ => panic!("expected the source-code variant"),
    }
    let rs = uniform_resource_of(resource_with_nature(Some("rs"))).unwrap();
    match *rs {
        UniformResource::SourceCode(s) => assert_eq!(s.interpreter, SourceCodeInterpreter::Rust),
        _ => panic!("expected the source-code variant"),
    }
    let js = uniform_resource_of(resource_with_nature(Some("js"))).unwrap();
    match *js {
        UniformResource::SourceCode(s) => {
            assert_eq!(s.interpreter, SourceCodeInterpreter::JavaScript)
        }
        _ => panic!("expected the source-code variant"),
    }

    let md = uniform_resource_of(resource_with_nature(Some("mdx"))).unwrap();
    assert!(matches!(*md, UniformResource::Markdown(_)));
    let txt = uniform_resource_of(resource_with_nature(Some("text/plain"))).unwrap();
    assert!(matches!(*txt, UniformResource::PlainText(_)));
    let img = uniform_resource_of(resource_with_nature(Some("jpeg"))).unwrap();
    assert!(matches!(*img, UniformResource::Image(_)));

    let svg = uniform_resource_of(resource_with_nature(Some("image/svg+xml"))).unwrap();
    match *svg {
        UniformResource::Xml(x) => assert_eq!(x.schema, XmlSchema::Svg),
        _ => panic!("expected the XML variant"),
    }
    let xml = uniform_resource_of(resource_with_nature(Some("text/xml"))).unwrap();
    match *xml {
        UniformResource::Xml(x) => assert_eq!(x.schema, XmlSchema::Unknown),
        _ => panic!("expected the XML variant"),
    }

    let other = uniform_resource_of(resource_with_nature(Some("nature/unheard-of"))).unwrap();
    assert!(matches!(*other, UniformResource::Unknown(_, None)));
}

#[test]
fn dispatch_is_case_sensitive() {
    let upper = uniform_resource_of(resource_with_nature(Some("MD"))).unwrap();
    assert!(matches!(*upper, UniformResource::Unknown(_, None)));
}

#[test]
fn dispatch_without_nature_names_uri() {
    let e = uniform_resource_of(resource_with_nature(None)).err().unwrap();
    assert_eq!(e.uri, "entry");
}

#[test]
fn tap_resource_dispatches_as_plain_text_after_rewrite() {
    // the classifier rewrote the nature of `x.tap` to `text/plain`, so
    // dispatch lands on the plain-text variant, not on the TAP schema
    let cr = resource_with_nature(Some("text/plain"));
    let u = uniform_resource_of(cr).unwrap();
    assert!(matches!(*u, UniformResource::PlainText(_)));
}

#[test]
fn extension_extraction() {
    assert_eq!(nature_from_uri("a/b.tap"), Some("tap".to_string()));
    assert_eq!(nature_from_uri("archive.tar.gz"), Some("gz".to_string()));
    assert_eq!(nature_from_uri("plain"), None);
    assert_eq!(nature_from_uri("trailing."), Some("".to_string()));
}

#[test]
fn key_value_parsing() {
    assert_eq!(
        parse_key_val("text=text/plain"),
        Ok(("text".to_string(), "text/plain".to_string()))
    );
    assert_eq!(parse_key_val("a=b=c"), Ok(("a".to_string(), "b=c".to_string())));
    assert!(parse_key_val("no separator").is_err());
    assert!(parse_key_val("no separator").err().unwrap().contains("Invalid key-value pair"));
}

#[test]
fn path_info_extraction() {
    // create a real file so canonicalization succeeds
    let tmp = vfs::VfsPath::new(vfs::PhysicalFS::new("/tmp"));
    let file = tmp.join("surveilr_ingest_path_info.md").unwrap();
    let mut w = file.create_file().unwrap();
    w.write_all(b"x").unwrap();
    drop(w);
    let info = extract_path_info("/tmp", "/tmp/surveilr_ingest_path_info.md").unwrap();
    let (abs, parent, rel, basename, extn) = info;
    assert!(abs.ends_with("surveilr_ingest_path_info.md"));
    assert_eq!(parent, "/tmp");
    assert_eq!(rel, "surveilr_ingest_path_info.md");
    assert_eq!(basename, "surveilr_ingest_path_info.md");
    assert_eq!(extn.as_deref(), Some("md"));
}

#[test]
fn path_info_refuses_foreign_root() {
    let info = extract_path_info("/usr", "/tmp");
    assert!(info.is_none());
}

#[test]
fn path_info_with_empty_root_keeps_entry() {
    let tmp = vfs::VfsPath::new(vfs::PhysicalFS::new("/tmp"));
    let file = tmp.join("surveilr_ingest_empty_root.md").unwrap();
    let mut w = file.create_file().unwrap();
    w.write_all(b"x").unwrap();
    drop(w);
    let info = extract_path_info("", "/tmp/surveilr_ingest_empty_root.md").unwrap();
    assert_eq!(info.2, "/tmp/surveilr_ingest_empty_root.md");
    assert_eq!(info.3, "surveilr_ingest_empty_root.md");
}
