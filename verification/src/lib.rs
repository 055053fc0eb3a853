//! Classification and materialization pipeline for surveilled resources.
//!
//! The library walks enumerable sources (file system trees, virtual file
//! systems, task lines), classifies each entry's URI against ordered regex
//! rule lists, probes metadata, lazily reads and hashes content, and finally
//! dispatches each materialized resource to a typed uniform-resource variant.

pub mod capexec;
pub mod collection;
pub mod content;
pub mod encounter;
pub mod flags;
pub mod fsio;
pub mod paths;
pub mod regexes;
pub mod rules;
pub mod tasks;
pub mod textutil;
pub mod uniform;
pub mod vfsio;

pub use collection::ResourcesCollection;
pub use content::ContentResource;
pub use encounter::EncounterableResource;
pub use encounter::EncounteredResource;
pub use flags::ContentResourceFlags;
pub use flags::EncounterableResourceFlags;
pub use flags::EncounteredResourceFlags;
pub use rules::EncounterableResourceClass;
pub use rules::EncounterableResourcePathClassifier;
pub use rules::EncounterableResourcePathRules;
pub use uniform::UniformResource;
