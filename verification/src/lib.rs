//! Columnar conversion core for game-replay frame batches.
//!
//! A replay is an ordered sequence of per-frame records whose nested,
//! version-gated shape is resolved once per batch and then flattened into
//! dense typed columns.  The crate provides:
//!
//! - a plain-value model of the frame records ([`record`]),
//! - the batch-wide version-tier resolver ([`resolve`]),
//! - the row-to-column transform ([`transform`]),
//! - the definition/repetition level encoder for repeated item lists
//!   ([`levels`]),
//! - the nested-schema encoder that lays the column tree out as typed
//!   row-group buffers with a generated schema string ([`nested`]),
//! - the flat-sink layout with its fixed item capacity and absent-slot
//!   sentinels ([`flat`]),
//! - the surrounding converter's pure decisions: format names and
//!   detection, verbosity, port occupancy ([`options`]).
//!
//! File parsing and file writing are the callers' business: the library
//! takes plain record values in and hands plain buffers back.

use vstd::prelude::*;

pub mod flat;
pub mod levels;
pub mod nested;
pub mod options;
pub mod record;
pub mod resolve;
pub mod transform;

verus! {

/// Frame index of the first record of every batch: replays start counting
/// at this fixed negative offset.
pub const FIRST_FRAME_INDEX: i32 = -123;

} // verus!
