use vstd::prelude::*;

use crate::state::Pubkey;

verus! {

/// Notification emitted when Initialize succeeds: a new record now exists
/// with these exact values and no chunk received yet.
#[derive(Clone, Debug)]
pub struct UploadInitialized {
    pub authority: Pubkey,
    pub image_id: Vec<u8>,
    pub total_chunks: u32,
    pub content_type: Vec<u8>,
}

/// Notification emitted when AppendChunk succeeds. It carries the raw chunk
/// bytes: this is the only place a payload leaves the core, which never
/// stores chunk data itself.
#[derive(Clone, Debug)]
pub struct ChunkUploaded {
    pub authority: Pubkey,
    pub image_id: Vec<u8>,
    pub chunk_index: u32,
    pub data: Vec<u8>,
}

/// Notification emitted when Finalize succeeds: every declared chunk arrived
/// and the record is now terminal.
#[derive(Clone, Debug)]
pub struct UploadFinalized {
    pub authority: Pubkey,
    pub image_id: Vec<u8>,
    pub total_chunks: u32,
}

} // verus!
