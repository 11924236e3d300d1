//! Verified core of a chunked-upload tracker.
//!
//! A client declares an upload of a known number of chunks, submits the
//! chunks strictly in order, and finalizes the upload once every chunk has
//! arrived. The progress of one upload lives in a single [`state::ImageUpload`]
//! record; this crate holds the rules that decide whether an operation is
//! legal in the current state, the exact arithmetic behind the record's
//! fixed-capacity persisted layout, and proofs of the lifecycle laws.
//!
//! Identity checks, storage addressing, persistence and the notification
//! transport are external collaborators: the operations here take plain
//! values (the caller's key bytes, a timestamp) and hand back the updated
//! record together with the notification payload to emit.

pub mod constants;
pub mod error;
pub mod events;
pub mod instructions;
pub mod lifecycle;
pub mod state;
