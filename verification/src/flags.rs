//! Flag bitsets attached to resources at the three pipeline stages.
//!
//! Three flag families share the same low bit positions, so converting a
//! value from one family to the next keeps the common bits' meaning: the
//! encounterable flags (written by the classifier), the encountered flags
//! (adding the probed file-type bits) and the content-resource flags
//! (carrying the encounterable bits unchanged).

use vstd::prelude::*;

verus! {

/// Flags the URI classifier may set on an encounterable resource.
#[derive(Clone, Copy, Debug, PartialEq, Eq, Structural)]
pub struct EncounterableResourceFlags {
    pub content_acquirable: bool,
    pub ignore_resource: bool,
    pub capturable_executable: bool,
    pub capturable_sql: bool,
}

/// Flags on a resource after the metadata probe: the classifier's flags
/// plus the probed file-type bits.
#[derive(Clone, Copy, Debug, PartialEq, Eq, Structural)]
pub struct EncounteredResourceFlags {
    pub content_acquirable: bool,
    pub ignore_resource: bool,
    pub capturable_executable: bool,
    pub capturable_sql: bool,
    pub is_file: bool,
    pub is_directory: bool,
    pub is_symlink: bool,
}

/// Flags carried by a materialized content resource: the encounterable
/// bits, unchanged.
#[derive(Clone, Copy, Debug, PartialEq, Eq, Structural)]
pub struct ContentResourceFlags {
    pub content_acquirable: bool,
    pub ignore_resource: bool,
    pub capturable_executable: bool,
    pub capturable_sql: bool,
}

impl EncounterableResourceFlags {
    /// The stable bit encoding of this flag set.
    pub open spec fn spec_bits(self) -> int {
        (if self.content_acquirable { 1int } else { 0int })
            + (if self.ignore_resource { 2int } else { 0int })
            + (if self.capturable_executable { 4int } else { 0int })
            + (if self.capturable_sql { 8int } else { 0int })
    }

    /// True when no flag is set.
    pub open spec fn spec_is_empty(self) -> bool {
        !self.content_acquirable && !self.ignore_resource && !self.capturable_executable
            && !self.capturable_sql
    }

    pub fn empty() -> (r: Self)
        ensures
            r.spec_is_empty(),
    {
        EncounterableResourceFlags {
            content_acquirable: false,
            ignore_resource: false,
            capturable_executable: false,
            capturable_sql: false,
        }
    }

    pub fn bits(&self) -> (r: u32)
        ensures
            r == self.spec_bits(),
    {
        let mut r: u32 = 0;
        if self.content_acquirable {
            r = r + 1;
        }
        if self.ignore_resource {
            r = r + 2;
        }
        if self.capturable_executable {
            r = r + 4;
        }
        if self.capturable_sql {
            r = r + 8;
        }
        r
    }

    /// Decodes the low bits of `bits`; bits beyond the known flags are
    /// dropped.
    pub fn from_bits_truncate(bits: u32) -> (r: Self)
        ensures
            r.content_acquirable == (bits % 2 == 1),
            r.ignore_resource == (bits / 2 % 2 == 1),
            r.capturable_executable == (bits / 4 % 2 == 1),
            r.capturable_sql == (bits / 8 % 2 == 1),
    {
        EncounterableResourceFlags {
            content_acquirable: bits % 2 == 1,
            ignore_resource: bits / 2 % 2 == 1,
            capturable_executable: bits / 4 % 2 == 1,
            capturable_sql: bits / 8 % 2 == 1,
        }
    }
}

impl EncounteredResourceFlags {
    /// The stable bit encoding; the common flags keep the positions they
    /// have in `EncounterableResourceFlags`.
    pub open spec fn spec_bits(self) -> int {
        (if self.content_acquirable { 1int } else { 0int })
            + (if self.ignore_resource { 2int } else { 0int })
            + (if self.capturable_executable { 4int } else { 0int })
            + (if self.capturable_sql { 8int } else { 0int })
            + (if self.is_file { 16int } else { 0int })
            + (if self.is_directory { 32int } else { 0int })
            + (if self.is_symlink { 64int } else { 0int })
    }

    pub open spec fn spec_is_empty(self) -> bool {
        !self.content_acquirable && !self.ignore_resource && !self.capturable_executable
            && !self.capturable_sql && !self.is_file && !self.is_directory && !self.is_symlink
    }

    pub fn empty() -> (r: Self)
        ensures
            r.spec_is_empty(),
    {
        EncounteredResourceFlags {
            content_acquirable: false,
            ignore_resource: false,
            capturable_executable: false,
            capturable_sql: false,
            is_file: false,
            is_directory: false,
            is_symlink: false,
        }
    }

    pub fn bits(&self) -> (r: u32)
        ensures
            r == self.spec_bits(),
    {
        let mut r: u32 = 0;
        if self.content_acquirable {
            r = r + 1;
        }
        if self.ignore_resource {
            r = r + 2;
        }
        if self.capturable_executable {
            r = r + 4;
        }
        if self.capturable_sql {
            r = r + 8;
        }
        if self.is_file {
            r = r + 16;
        }
        if self.is_directory {
            r = r + 32;
        }
        if self.is_symlink {
            r = r + 64;
        }
        r
    }

    /// Widens classifier flags into encountered flags; the file-type bits
    /// start out clear.
    pub fn from_encounterable(f: EncounterableResourceFlags) -> (r: Self)
        ensures
            r.content_acquirable == f.content_acquirable,
            r.ignore_resource == f.ignore_resource,
            r.capturable_executable == f.capturable_executable,
            r.capturable_sql == f.capturable_sql,
            !r.is_file,
            !r.is_directory,
            !r.is_symlink,
    {
        EncounteredResourceFlags {
            content_acquirable: f.content_acquirable,
            ignore_resource: f.ignore_resource,
            capturable_executable: f.capturable_executable,
            capturable_sql: f.capturable_sql,
            is_file: false,
            is_directory: false,
            is_symlink: false,
        }
    }
}

impl ContentResourceFlags {
    /// The stable bit encoding; identical to the encounterable positions.
    pub open spec fn spec_bits(self) -> int {
        (if self.content_acquirable { 1int } else { 0int })
            + (if self.ignore_resource { 2int } else { 0int })
            + (if self.capturable_executable { 4int } else { 0int })
            + (if self.capturable_sql { 8int } else { 0int })
    }

    pub open spec fn spec_is_empty(self) -> bool {
        !self.content_acquirable && !self.ignore_resource && !self.capturable_executable
            && !self.capturable_sql
    }

    pub fn empty() -> (r: Self)
        ensures
            r.spec_is_empty(),
    {
        ContentResourceFlags {
            content_acquirable: false,
            ignore_resource: false,
            capturable_executable: false,
            capturable_sql: false,
        }
    }

    pub fn bits(&self) -> (r: u32)
        ensures
            r == self.spec_bits(),
    {
        let mut r: u32 = 0;
        if self.content_acquirable {
            r = r + 1;
        }
        if self.ignore_resource {
            r = r + 2;
        }
        if self.capturable_executable {
            r = r + 4;
        }
        if self.capturable_sql {
            r = r + 8;
        }
        r
    }

    /// Carries the classifier's flags over to a content resource,
    /// unchanged.
    pub fn from_encounterable(f: EncounterableResourceFlags) -> (r: Self)
        ensures
            r.content_acquirable == f.content_acquirable,
            r.ignore_resource == f.ignore_resource,
            r.capturable_executable == f.capturable_executable,
            r.capturable_sql == f.capturable_sql,
    {
        ContentResourceFlags {
            content_acquirable: f.content_acquirable,
            ignore_resource: f.ignore_resource,
            capturable_executable: f.capturable_executable,
            capturable_sql: f.capturable_sql,
        }
    }
}

/// Law: the three flag families agree on the shared bit positions, so the
/// bit encoding survives widening and truncation between them. Widening
/// classifier flags into encountered flags keeps the encoding, and a
/// content-resource view of encountered flags is exactly the encoding
/// reduced to the common positions.
pub proof fn lemma_flag_bits_stable(e: EncounterableResourceFlags, f: EncounteredResourceFlags)
    ensures
        (EncounteredResourceFlags {
            content_acquirable: e.content_acquirable,
            ignore_resource: e.ignore_resource,
            capturable_executable: e.capturable_executable,
            capturable_sql: e.capturable_sql,
            is_file: false,
            is_directory: false,
            is_symlink: false,
        }).spec_bits() == e.spec_bits(),
        (ContentResourceFlags {
            content_acquirable: f.content_acquirable,
            ignore_resource: f.ignore_resource,
            capturable_executable: f.capturable_executable,
            capturable_sql: f.capturable_sql,
        }).spec_bits() == f.spec_bits() % 16,
{
}

} // verus!
