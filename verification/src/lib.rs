//! Structural diffs between two versions of a keyed collection of motion
//! records, and the application of such diffs.
//!
//! A record collection maps a 40-bit key to a [`record::Motion`]. A patch
//! collection maps a key to a [`patch::MotionPatch`], in which every field
//! is either unset (no change) or set to its new value, next to the two
//! structural directives `remove` and `rename`.
//!
//! [`diff::create`] computes the patch collection that leads from one record
//! collection to another, and [`applier::apply`] carries one out on a record
//! collection. A diff only removes and changes: a key that is new in the
//! target gets no entry. [`canonical::canonical_text`] orders the printed
//! patches by the text of their keys. [`command`] lays out the two commands
//! of the front end as stages, and [`laws`] states what holds of diffing and
//! applying taken together.
pub mod applier;
pub mod canonical;
pub mod collection;
pub mod command;
pub mod diff;
pub mod extra_patch;
pub mod field;
pub mod flags_patch;
pub mod laws;
pub mod order;
pub mod patch;
pub mod record;
