use vstd::prelude::*;

verus! {

/// Why an operation was refused. Every failure of the three lifecycle
/// operations is one precondition violation, reported as exactly one of
/// these kinds; nothing is retried and no state changes on failure.
#[derive(Clone, Copy, Debug, PartialEq, Eq, Structural)]
pub enum ImageError {
    /// The upload identifier is longer than 64 bytes.
    ImageIdTooLong,
    /// The declared chunk count is zero.
    ZeroChunks,
    /// The declared chunk count exceeds 10000.
    TooManyChunks,
    /// The chunk payload is longer than 900 bytes.
    ChunkDataTooLarge,
    /// The chunk payload is empty.
    EmptyChunkData,
    /// The chunk index is not the next expected one.
    InvalidChunkIndex,
    /// The upload was already finalized.
    AlreadyFinalized,
    /// Not every declared chunk has arrived yet.
    IncompleteUpload,
    /// The content-type tag is longer than 32 bytes.
    ContentTypeTooLong,
}

impl ImageError {
    /// A human-readable description of the failure.
    pub fn message(&self) -> &'static str {
        match self {
            ImageError::ImageIdTooLong => "Image ID exceeds maximum length of 64 characters",
            ImageError::ZeroChunks => "Total chunks must be greater than zero",
            ImageError::TooManyChunks => "Total chunks exceeds maximum of 10,000",
            ImageError::ChunkDataTooLarge => "Chunk data exceeds maximum size of 900 bytes",
            ImageError::EmptyChunkData => "Chunk data must not be empty",
            ImageError::InvalidChunkIndex => "Chunk index does not match expected next chunk",
            ImageError::AlreadyFinalized => "Upload is already finalized",
            ImageError::IncompleteUpload => "Not all chunks have been uploaded",
            ImageError::ContentTypeTooLong => "Content type exceeds maximum length of 32 characters",
        }
    }
}

} // verus!
