use vstd::prelude::*;

verus! {

/// Largest accepted chunk payload, in bytes.
pub const MAX_CHUNK_DATA_SIZE: usize = 900;

/// Largest accepted declared chunk count for one upload.
pub const MAX_TOTAL_CHUNKS: u32 = 10000;

/// Largest accepted upload identifier length, in bytes.
pub const MAX_IMAGE_ID_LENGTH: usize = 64;

/// Largest accepted content-type tag length, in bytes.
pub const MAX_CONTENT_TYPE_LENGTH: usize = 32;

} // verus!
