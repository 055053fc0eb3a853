//! Content acquisition: whole-file reads, SHA-1 digests in hex, and the
//! lazy content suppliers attached to acquirable resources.
//!
//! A supplier owns a clone of its source handle and re-reads the source
//! on every invocation; whatever bytes come back, the digest it reports
//! is the hex-encoded SHA-1 of exactly those bytes.

use vstd::prelude::*;
use vstd::string::StrSliceExecFns;
use vstd::string::StringSliceAdditionalSpecFns;

use crate::fsio::canonicalize_path;
use crate::rules::EncounterableResourceClass;
use crate::vfsio::vfs_clone;
use crate::vfsio::vfs_join;
use crate::vfsio::vfs_path_string;
use crate::vfsio::vfs_physical_root;
use crate::vfsio::vfs_read_bytes;
use crate::vfsio::vfs_read_text;

verus! {

/// The SHA-1 digest (20 bytes) of a byte sequence.
pub uninterp spec fn sha1_of(bytes: Seq<u8>) -> Seq<u8>;

/// Relies on `sha1::Sha1` through the `digest` traits: the 20-byte SHA-1
/// digest of `bytes`, a pure function of the bytes alone.
#[verifier::external_body]
fn sha1_digest(bytes: &[u8]) -> (r: Vec<u8>)
    ensures
        r@ == sha1_of(bytes@),
        r@.len() == 20,
{
    let mut hasher = <sha1::Sha1 as sha1::Digest>::new();
    sha1::Digest::update(&mut hasher, bytes);
    sha1::Digest::finalize(hasher).to_vec()
}

/// The sixteen lowercase hex digits, in value order.
pub open spec fn hex_digit(n: int) -> char {
    seq!['0', '1', '2', '3', '4', '5', '6', '7', '8', '9', 'a', 'b', 'c', 'd', 'e', 'f'][n]
}

/// The lowercase hex encoding of a byte sequence: two digits per byte,
/// high nibble first.
pub open spec fn hex_of(bytes: Seq<u8>) -> Seq<char>
    decreases bytes.len(),
{
    if bytes.len() == 0 {
        Seq::empty()
    } else {
        hex_of(bytes.drop_last()) + seq![
            hex_digit(bytes.last() as int / 16),
            hex_digit(bytes.last() as int % 16),
        ]
    }
}

/// The hex encoding is twice as long as its input.
pub proof fn lemma_hex_of_len(bytes: Seq<u8>)
    ensures
        hex_of(bytes).len() == 2 * bytes.len(),
    decreases bytes.len(),
{
    if bytes.len() > 0 {
        lemma_hex_of_len(bytes.drop_last());
    }
}

/// The hex digest of a byte sequence: the SHA-1 digest, hex encoded.
pub open spec fn sha1_hex_of(bytes: Seq<u8>) -> Seq<char> {
    hex_of(sha1_of(bytes))
}

fn hex_digit_str(n: u8) -> (r: &'static str)
    requires
        n < 16,
    ensures
        r@ == seq![hex_digit(n as int)],
{
    proof {
        reveal_strlit("0");
        reveal_strlit("1");
        reveal_strlit("2");
        reveal_strlit("3");
        reveal_strlit("4");
        reveal_strlit("5");
        reveal_strlit("6");
        reveal_strlit("7");
        reveal_strlit("8");
        reveal_strlit("9");
        reveal_strlit("a");
        reveal_strlit("b");
        reveal_strlit("c");
        reveal_strlit("d");
        reveal_strlit("e");
        reveal_strlit("f");
    }
    match n {
        0 => "0",
        1 => "1",
        2 => "2",
        3 => "3",
        4 => "4",
        5 => "5",
        6 => "6",
        7 => "7",
        8 => "8",
        9 => "9",
        10 => "a",
        11 => "b",
        12 => "c",
        13 => "d",
        14 => "e",
        _ => "f",
    }
}

/// Hex encodes `bytes`, two lowercase digits per byte.
pub fn to_hex(bytes: &[u8]) -> (r: String)
    ensures
        r@ == hex_of(bytes@),
{
    let mut s = String::new();
    let mut i: usize = 0;
    proof {
        assert(bytes@.take(0) =~= Seq::<u8>::empty());
    }
    while i < bytes.len()
        invariant
            0 <= i <= bytes@.len(),
            s@ == hex_of(bytes@.take(i as int)),
        decreases bytes@.len() - i,
    {
        let b = bytes[i];
        s.append(hex_digit_str(b / 16));
        s.append(hex_digit_str(b % 16));
        proof {
            assert(bytes@.take(i + 1).drop_last() =~= bytes@.take(i as int));
            assert(bytes@.take(i + 1).last() == bytes@[i as int]);
        }
        i = i + 1;
    }
    proof {
        assert(bytes@.take(bytes@.len() as int) =~= bytes@);
    }
    s
}

/// The hex-encoded SHA-1 digest of `bytes`: forty lowercase hex digits.
pub fn sha1_hex(bytes: &[u8]) -> (r: String)
    ensures
        r@ == sha1_hex_of(bytes@),
        r@.len() == 40,
{
    let digest = sha1_digest(bytes);
    let r = to_hex(digest.as_slice());
    proof {
        lemma_hex_of_len(sha1_of(bytes@));
    }
    r
}

/// Binary content together with its hex SHA-1 digest.
pub trait BinaryContent {
    fn content_digest_hash(&self) -> &str;

    fn content_binary(&self) -> &Vec<u8>;
}

/// Text content together with its hex SHA-1 digest.
pub trait TextContent {
    fn content_digest_hash(&self) -> &str;

    fn content_text(&self) -> &str;
}

/// `hash` is the hex SHA-1 digest of `binary`.
pub open spec fn binary_well_hashed(hash: Seq<char>, binary: Seq<u8>) -> bool {
    hash == sha1_hex_of(binary)
}

/// `hash` is the hex SHA-1 digest of the UTF-8 bytes of `text`.
pub open spec fn text_well_hashed(hash: Seq<char>, text: Seq<char>) -> bool {
    hash == sha1_hex_of(vstd::utf8::encode_utf8(text))
}

/// Fully read binary content.
pub struct ResourceBinaryContent {
    pub hash: String,
    pub binary: Vec<u8>,
}

impl BinaryContent for ResourceBinaryContent {
    fn content_digest_hash(&self) -> &str {
        self.hash.as_str()
    }

    fn content_binary(&self) -> &Vec<u8> {
        &self.binary
    }
}

/// Fully read text content.
pub struct ResourceTextContent {
    pub hash: String,
    pub text: String,
}

impl TextContent for ResourceTextContent {
    fn content_digest_hash(&self) -> &str {
        self.hash.as_str()
    }

    fn content_text(&self) -> &str {
        self.text.as_str()
    }
}

/// Law: the digest a supplier reports is a function of the content
/// alone, so two supplied values over identical bytes carry an identical
/// hash.
pub proof fn lemma_binary_hash_deterministic(
    h1: Seq<char>,
    b1: Seq<u8>,
    h2: Seq<char>,
    b2: Seq<u8>,
)
    requires
        binary_well_hashed(h1, b1),
        binary_well_hashed(h2, b2),
        b1 == b2,
    ensures
        h1 == h2,
{
}

/// Law: reading the same text twice yields the same digest: the text
/// digest is a function of the text alone.
pub proof fn lemma_text_hash_deterministic(h1: Seq<char>, t1: Seq<char>, h2: Seq<char>, t2: Seq<
    char,
>)
    requires
        text_well_hashed(h1, t1),
        text_well_hashed(h2, t2),
        t1 == t2,
    ensures
        h1 == h2,
{
}

/// The source a content supplier re-reads on every invocation.
pub enum ContentSource {
    FsPath(String),
    VfsEntry(vfs::VfsPath),
}

/// The error of a supplier invocation: the source could not be opened,
/// read, or (for text) decoded as UTF-8.
#[derive(Debug)]
pub struct ContentReadError {
    pub uri: String,
}

impl ContentSource {
    /// A new handle to the same source.
    fn duplicate(&self) -> (r: ContentSource)
        ensures
            r is FsPath <==> self is FsPath,
    {
        match self {
            ContentSource::FsPath(p) => ContentSource::FsPath(p.clone()),
            ContentSource::VfsEntry(p) => ContentSource::VfsEntry(vfs_clone(p)),
        }
    }

    /// The source's URI string.
    fn uri_string(&self) -> (r: String) {
        match self {
            ContentSource::FsPath(p) => p.clone(),
            ContentSource::VfsEntry(p) => vfs_path_string(p),
        }
    }
}

/// Resolves a real file-system path against the physical virtual-file-
/// system root: the canonical path with its leading separator removed,
/// joined below the root.
fn resolve_fs_source(path: &str) -> (r: Option<vfs::VfsPath>) {
    let canon = match canonicalize_path(path) {
        Some(c) => c,
        None => {
            return None;
        },
    };
    let canon_str = canon.as_str();
    let len = canon_str.unicode_len();
    if len == 0 {
        return None;
    }
    let rel = if canon_str.get_char(0) == '/' {
        canon_str.substring_char(1, len)
    } else {
        canon_str
    };
    let root = vfs_physical_root();
    vfs_join(&root, rel)
}

fn source_read_bytes(source: &ContentSource) -> (r: Option<Vec<u8>>) {
    match source {
        ContentSource::FsPath(p) => {
            match resolve_fs_source(p.as_str()) {
                Some(vp) => vfs_read_bytes(&vp),
                None => None,
            }
        },
        ContentSource::VfsEntry(p) => vfs_read_bytes(p),
    }
}

fn source_read_text(source: &ContentSource) -> (r: Option<String>) {
    match source {
        ContentSource::FsPath(p) => {
            match resolve_fs_source(p.as_str()) {
                Some(vp) => vfs_read_text(&vp),
                None => None,
            }
        },
        ContentSource::VfsEntry(p) => vfs_read_text(p),
    }
}

/// A lazy binary supplier: each invocation re-reads the source in full
/// and digests exactly the bytes it returns.
pub struct BinaryContentSupplier {
    pub source: ContentSource,
}

impl BinaryContentSupplier {
    /// Reads the source in full. Whatever bytes the source holds at this
    /// moment, the reported hash is their hex SHA-1 digest.
    pub fn supply(&self) -> (r: Result<ResourceBinaryContent, ContentReadError>)
        ensures
            r matches Ok(c) ==> binary_well_hashed(c.hash@, c.binary@),
    {
        match source_read_bytes(&self.source) {
            Some(binary) => {
                let hash = sha1_hex(binary.as_slice());
                Ok(ResourceBinaryContent { hash, binary })
            },
            None => Err(ContentReadError { uri: self.source.uri_string() }),
        }
    }
}

/// A lazy text supplier: each invocation re-reads the source in full as
/// UTF-8 and digests exactly the text it returns.
pub struct TextContentSupplier {
    pub source: ContentSource,
}

impl TextContentSupplier {
    /// Reads the source in full as UTF-8. Whatever text the source holds
    /// at this moment, the reported hash is the hex SHA-1 digest of its
    /// UTF-8 bytes.
    pub fn supply(&self) -> (r: Result<ResourceTextContent, ContentReadError>)
        ensures
            r matches Ok(c) ==> text_well_hashed(c.hash@, c.text@),
    {
        match source_read_text(&self.source) {
            Some(text) => {
                let text_str = text.as_str();
                let hash = sha1_hex(text_str.as_bytes());
                proof {
                    assert(text_str.spec_bytes() == vstd::utf8::encode_utf8(text@));
                }
                Ok(ResourceTextContent { hash, text })
            },
            None => Err(ContentReadError { uri: self.source.uri_string() }),
        }
    }
}

/// The materialized record of an encountered resource: its stable URI,
/// resolved nature, probed size and timestamps (seconds since the Unix
/// epoch), and the lazy content suppliers.
pub struct ContentResource {
    pub flags: crate::flags::ContentResourceFlags,
    pub uri: String,
    pub nature: Option<String>,
    pub size: Option<u64>,
    pub created_at: Option<i64>,
    pub last_modified_at: Option<i64>,
    pub content_binary_supplier: Option<BinaryContentSupplier>,
    pub content_text_supplier: Option<TextContentSupplier>,
}

/// The mathematical content of a `ContentResource`: the suppliers reduce
/// to their presence.
pub struct ContentResourceView {
    pub flags: crate::flags::ContentResourceFlags,
    pub uri: Seq<char>,
    pub nature: Option<Seq<char>>,
    pub size: Option<u64>,
    pub created_at: Option<i64>,
    pub last_modified_at: Option<i64>,
    pub has_binary_supplier: bool,
    pub has_text_supplier: bool,
}

impl View for ContentResource {
    type V = ContentResourceView;

    open spec fn view(&self) -> ContentResourceView {
        ContentResourceView {
            flags: self.flags,
            uri: self.uri@,
            nature: self.nature.deep_view(),
            size: self.size,
            created_at: self.created_at,
            last_modified_at: self.last_modified_at,
            has_binary_supplier: self.content_binary_supplier is Some,
            has_text_supplier: self.content_text_supplier is Some,
        }
    }
}

/// The pair of suppliers attached to an encountered resource. Both exist
/// exactly when the class carries the content-acquirable flag.
pub struct EncounteredResourceContentSuppliers {
    pub text: Option<TextContentSupplier>,
    pub binary: Option<BinaryContentSupplier>,
}

impl EncounteredResourceContentSuppliers {
    /// Suppliers over a real file-system path: present exactly when the
    /// class says the content is acquirable, and each owns a clone of
    /// exactly the given path.
    pub fn from_fs_path(fs_path: &str, options: &EncounterableResourceClass) -> (r:
        EncounteredResourceContentSuppliers)
        ensures
            r.binary is Some <==> options@.flags.content_acquirable,
            r.text is Some <==> options@.flags.content_acquirable,
            r.binary matches Some(s) ==> s.source matches ContentSource::FsPath(p) && p@
                == fs_path@,
            r.text matches Some(s) ==> s.source matches ContentSource::FsPath(p) && p@ == fs_path@,
    {
        if options.flags.content_acquirable {
            EncounteredResourceContentSuppliers {
                binary: Some(
                    BinaryContentSupplier { source: ContentSource::FsPath(fs_path.to_owned()) },
                ),
                text: Some(
                    TextContentSupplier { source: ContentSource::FsPath(fs_path.to_owned()) },
                ),
            }
        } else {
            EncounteredResourceContentSuppliers { binary: None, text: None }
        }
    }

    /// Suppliers over a virtual-file-system path: present exactly when
    /// the class says the content is acquirable, and each holds a
    /// virtual-path handle (a clone of the given one; the handle itself
    /// is opaque here).
    pub fn from_vfs_path(vfs_path: &vfs::VfsPath, options: &EncounterableResourceClass) -> (r:
        EncounteredResourceContentSuppliers)
        ensures
            r.binary is Some <==> options@.flags.content_acquirable,
            r.text is Some <==> options@.flags.content_acquirable,
            r.binary matches Some(s) ==> s.source is VfsEntry,
            r.text matches Some(s) ==> s.source is VfsEntry,
    {
        if options.flags.content_acquirable {
            EncounteredResourceContentSuppliers {
                binary: Some(
                    BinaryContentSupplier { source: ContentSource::VfsEntry(vfs_clone(vfs_path)) },
                ),
                text: Some(
                    TextContentSupplier { source: ContentSource::VfsEntry(vfs_clone(vfs_path)) },
                ),
            }
        } else {
            EncounteredResourceContentSuppliers { binary: None, text: None }
        }
    }
}

} // verus!
