//! Metadata model of game versions and libraries, with the logic that turns
//! it into a concrete set of artifacts: rule evaluation, partial-library
//! merging, content-addressed URL resolution and group fingerprints.
pub mod content;
pub mod entries;
pub mod error;
pub mod fingerprint;
pub mod gradle;
pub mod merge;
pub mod minecraft;
pub mod rules;
pub mod split;
pub mod text;
pub mod time;
