use vstd::prelude::*;

use crate::constants::{
    MAX_CHUNK_DATA_SIZE, MAX_CONTENT_TYPE_LENGTH, MAX_IMAGE_ID_LENGTH, MAX_TOTAL_CHUNKS,
};
use crate::error::ImageError;
use crate::events::{ChunkUploaded, UploadFinalized, UploadInitialized};
use crate::lifecycle::{lifecycle_step, same_identity};
use crate::state::{ImageUpload, Pubkey};

verus! {

/// The failure Initialize reports for these inputs, or `None` exactly when
/// it must succeed; the conditions are tested in this order.
pub open spec fn init_failure(
    image_id: Seq<u8>,
    total_chunks: u32,
    content_type: Seq<u8>,
) -> Option<ImageError> {
    if image_id.len() > MAX_IMAGE_ID_LENGTH {
        Some(ImageError::ImageIdTooLong)
    } else if total_chunks == 0 {
        Some(ImageError::ZeroChunks)
    } else if total_chunks > MAX_TOTAL_CHUNKS {
        Some(ImageError::TooManyChunks)
    } else if content_type.len() > MAX_CONTENT_TYPE_LENGTH {
        Some(ImageError::ContentTypeTooLong)
    } else {
        None
    }
}

/// The failure AppendChunk reports against this record, or `None` exactly
/// when it must succeed; the conditions are tested in this order.
pub open spec fn append_failure(
    record: ImageUpload,
    chunk_index: u32,
    data: Seq<u8>,
) -> Option<ImageError> {
    if record.finalized {
        Some(ImageError::AlreadyFinalized)
    } else if data.len() == 0 {
        Some(ImageError::EmptyChunkData)
    } else if data.len() > MAX_CHUNK_DATA_SIZE {
        Some(ImageError::ChunkDataTooLarge)
    } else if chunk_index != record.chunks_uploaded {
        Some(ImageError::InvalidChunkIndex)
    } else {
        None
    }
}

/// The failure Finalize reports against this record, or `None` exactly
/// when it must succeed; the conditions are tested in this order.
pub open spec fn finalize_failure(record: ImageUpload) -> Option<ImageError> {
    if record.finalized {
        Some(ImageError::AlreadyFinalized)
    } else if record.chunks_uploaded != record.total_chunks {
        Some(ImageError::IncompleteUpload)
    } else {
        None
    }
}

fn copy_bytes(v: &Vec<u8>) -> (r: Vec<u8>)
    ensures
        r@ == v@,
{
    let mut r: Vec<u8> = Vec::new();
    let mut i: usize = 0;
    while i < v.len()
        invariant
            i <= v@.len(),
            r@ == v@.take(i as int),
        decreases v@.len() - i,
    {
        r.push(v[i]);
        proof {
            assert(v@.take(i as int) + seq![v@[i as int]] =~= v@.take(i as int + 1));
        }
        i = i + 1;
    }
    proof {
        assert(v@.take(v@.len() as int) =~= v@);
    }
    r
}

/// Initialize: validate the inputs and create the record for one new
/// upload, together with the notification to emit. Succeeds exactly when
/// the identifier, the declared chunk count and the content type are within
/// bounds; on failure nothing is created. The caller supplies its clock's
/// timestamp and the storage layer's bump seed; preventing a second record
/// for the same (owner, identifier) pair is the storage layer's concern.
pub fn initialize_upload(
    authority: Pubkey,
    image_id: Vec<u8>,
    total_chunks: u32,
    content_type: Vec<u8>,
    created_at: i64,
    bump: u8,
) -> (r: Result<(ImageUpload, UploadInitialized), ImageError>)
    ensures
        r is Ok <==> init_failure(image_id@, total_chunks, content_type@) is None,
        r matches Err(e) ==> Some(e) == init_failure(image_id@, total_chunks, content_type@),
        r matches Ok(p) ==> ({
            &&& p.0.authority == authority
            &&& p.0.image_id@ == image_id@
            &&& p.0.total_chunks == total_chunks
            &&& p.0.chunks_uploaded == 0
            &&& !p.0.finalized
            &&& p.0.content_type@ == content_type@
            &&& p.0.created_at == created_at
            &&& p.0.bump == bump
            &&& p.0.wf()
            &&& p.1.authority == authority
            &&& p.1.image_id@ == image_id@
            &&& p.1.total_chunks == total_chunks
            &&& p.1.content_type@ == content_type@
        }),
{
    if image_id.len() > MAX_IMAGE_ID_LENGTH {
        return Err(ImageError::ImageIdTooLong);
    }
    if total_chunks == 0 {
        return Err(ImageError::ZeroChunks);
    }
    if total_chunks > MAX_TOTAL_CHUNKS {
        return Err(ImageError::TooManyChunks);
    }
    if content_type.len() > MAX_CONTENT_TYPE_LENGTH {
        return Err(ImageError::ContentTypeTooLong);
    }
    let event = UploadInitialized {
        authority,
        image_id: copy_bytes(&image_id),
        total_chunks,
        content_type: copy_bytes(&content_type),
    };
    let record = ImageUpload {
        authority,
        image_id,
        total_chunks,
        chunks_uploaded: 0,
        finalized: false,
        content_type,
        created_at,
        bump,
    };
    Ok((record, event))
}

/// AppendChunk: accept the next chunk of an upload in strict, gapless,
/// zero-based order. Succeeds exactly when the record is not finalized, the
/// payload is non-empty and within size, and `chunk_index` equals the count
/// already received; then the count grows by exactly one and the returned
/// notification relays the payload. On failure the record is untouched.
/// The declared total is never consulted: a chunk whose index matches the
/// count is accepted even once the count has reached it, and a record
/// pushed past its total can no longer be finalized.
pub fn upload_chunk(upload: &mut ImageUpload, chunk_index: u32, data: Vec<u8>) -> (r: Result<
    ChunkUploaded,
    ImageError,
>)
    requires
        old(upload).chunks_uploaded < u32::MAX,
    ensures
        r is Ok <==> append_failure(*old(upload), chunk_index, data@) is None,
        r matches Err(e) ==> ({
            &&& Some(e) == append_failure(*old(upload), chunk_index, data@)
            &&& *final(upload) == *old(upload)
        }),
        r is Ok ==> final(upload).chunks_uploaded == old(upload).chunks_uploaded + 1,
        final(upload).finalized == old(upload).finalized,
        same_identity(*old(upload), *final(upload)),
        lifecycle_step(*old(upload), *final(upload)),
        r matches Ok(ev) ==> ({
            &&& ev.authority == old(upload).authority
            &&& ev.image_id@ == old(upload).image_id@
            &&& ev.chunk_index == chunk_index
            &&& ev.data@ == data@
        }),
{
    if upload.finalized {
        return Err(ImageError::AlreadyFinalized);
    }
    if data.len() == 0 {
        return Err(ImageError::EmptyChunkData);
    }
    if data.len() > MAX_CHUNK_DATA_SIZE {
        return Err(ImageError::ChunkDataTooLarge);
    }
    if chunk_index != upload.chunks_uploaded {
        return Err(ImageError::InvalidChunkIndex);
    }
    upload.chunks_uploaded = upload.chunks_uploaded + 1;
    Ok(ChunkUploaded {
        authority: upload.authority,
        image_id: copy_bytes(&upload.image_id),
        chunk_index,
        data,
    })
}

/// Finalize: mark an upload terminal once every declared chunk has been
/// received. Succeeds exactly when the record is not yet finalized and the
/// received count equals the declared count; then only the terminal flag
/// changes. On failure the record is untouched.
pub fn finalize_upload(upload: &mut ImageUpload) -> (r: Result<UploadFinalized, ImageError>)
    ensures
        r is Ok <==> finalize_failure(*old(upload)) is None,
        r matches Err(e) ==> ({
            &&& Some(e) == finalize_failure(*old(upload))
            &&& *final(upload) == *old(upload)
        }),
        r is Ok ==> final(upload).finalized,
        final(upload).chunks_uploaded == old(upload).chunks_uploaded,
        same_identity(*old(upload), *final(upload)),
        lifecycle_step(*old(upload), *final(upload)),
        r matches Ok(ev) ==> ({
            &&& ev.authority == old(upload).authority
            &&& ev.image_id@ == old(upload).image_id@
            &&& ev.total_chunks == old(upload).total_chunks
        }),
{
    if upload.finalized {
        return Err(ImageError::AlreadyFinalized);
    }
    if upload.chunks_uploaded != upload.total_chunks {
        return Err(ImageError::IncompleteUpload);
    }
    upload.finalized = true;
    Ok(UploadFinalized {
        authority: upload.authority,
        image_id: copy_bytes(&upload.image_id),
        total_chunks: upload.total_chunks,
    })
}

} // verus!
