//! Bounds-checked positional access to growable sequences.
//!
//! Reading, removing and inserting at a position report an index that is
//! not live as a value (`None`, or `Err` carrying the element back) and
//! never abort. Each operation is specified over the sequence's view as a
//! `Seq`.

pub mod lemmas;
pub mod model;
pub mod sequence;
pub mod vec_sequence;

pub use sequence::SafeSequence;
