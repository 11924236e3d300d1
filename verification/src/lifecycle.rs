use vstd::prelude::*;

use crate::state::ImageUpload;

verus! {

/// The write-once fields are untouched: `post` agrees with `pre` on owner,
/// identifier, declared chunk count, content type, creation time and bump
/// seed. Every operation, successful or refused, preserves this.
pub open spec fn same_identity(pre: ImageUpload, post: ImageUpload) -> bool {
    &&& post.authority == pre.authority
    &&& post.image_id@ == pre.image_id@
    &&& post.total_chunks == pre.total_chunks
    &&& post.content_type@ == pre.content_type@
    &&& post.created_at == pre.created_at
    &&& post.bump == pre.bump
}

/// One successful AppendChunk: the record was not finalized, exactly one
/// more chunk is counted, and nothing else changes.
pub open spec fn append_step(pre: ImageUpload, post: ImageUpload) -> bool {
    &&& same_identity(pre, post)
    &&& !pre.finalized
    &&& !post.finalized
    &&& post.chunks_uploaded == pre.chunks_uploaded + 1
}

/// One successful Finalize: the record was not finalized, every declared
/// chunk had arrived, and the terminal flag is now set.
pub open spec fn finalize_step(pre: ImageUpload, post: ImageUpload) -> bool {
    &&& same_identity(pre, post)
    &&& !pre.finalized
    &&& pre.chunks_uploaded == pre.total_chunks
    &&& post.finalized
    &&& post.chunks_uploaded == pre.chunks_uploaded
}

/// A refused operation: the record is left exactly as it was.
pub open spec fn stutter_step(pre: ImageUpload, post: ImageUpload) -> bool {
    &&& same_identity(pre, post)
    &&& post.finalized == pre.finalized
    &&& post.chunks_uploaded == pre.chunks_uploaded
}

/// Everything one call of AppendChunk or Finalize can do to an existing
/// record, whether it succeeds or fails.
pub open spec fn lifecycle_step(pre: ImageUpload, post: ImageUpload) -> bool {
    ||| append_step(pre, post)
    ||| finalize_step(pre, post)
    ||| stutter_step(pre, post)
}

/// Across one call, `chunks_uploaded` never decreases and grows by at most
/// one, the terminal flag never reverts, and the write-once fields keep
/// their values.
pub proof fn lemma_step_monotonic(pre: ImageUpload, post: ImageUpload)
    requires
        lifecycle_step(pre, post),
    ensures
        pre.chunks_uploaded <= post.chunks_uploaded,
        post.chunks_uploaded <= pre.chunks_uploaded + 1,
        pre.finalized ==> post.finalized,
        same_identity(pre, post),
{
}

/// Across any sequence of calls on one record, `chunks_uploaded` is
/// non-decreasing, `finalized` never reverts, and the write-once fields
/// keep their values. `trace` lists the record's states in order, each
/// consecutive pair one call apart.
pub proof fn lemma_trace_monotonic(trace: Seq<ImageUpload>, i: int, j: int)
    requires
        0 <= i <= j < trace.len(),
        forall|k: int|
            0 <= k < trace.len() - 1 ==> #[trigger] lifecycle_step(trace[k], trace[k + 1]),
    ensures
        trace[i].chunks_uploaded <= trace[j].chunks_uploaded,
        trace[i].finalized ==> trace[j].finalized,
        same_identity(trace[i], trace[j]),
    decreases j - i,
{
    if i < j {
        let k: int = j - 1;
        assert(lifecycle_step(trace[k], trace[k + 1]));
        lemma_trace_monotonic(trace, i, k);
        lemma_step_monotonic(trace[k], trace[k + 1]);
    }
}

/// The bounds `wf` states are invariant: any record reachable from a
/// well-formed one by lifecycle operations is well-formed.
pub proof fn lemma_step_preserves_wf(pre: ImageUpload, post: ImageUpload)
    requires
        lifecycle_step(pre, post),
        pre.wf(),
    ensures
        post.wf(),
{
}

/// AppendChunk never consults the declared total, so a record whose count
/// has run past it can still grow — but such a record can never become
/// finalized, since Finalize demands the count equal the total exactly.
pub proof fn lemma_overrun_never_finalizes(pre: ImageUpload, post: ImageUpload)
    requires
        lifecycle_step(pre, post),
        !pre.finalized,
        pre.chunks_uploaded > pre.total_chunks,
    ensures
        !post.finalized,
        post.chunks_uploaded > post.total_chunks,
{
}

/// The terminal flag can only be set at the moment every declared chunk is
/// in: a record that becomes finalized during a call was complete before
/// it, and is complete after it.
pub proof fn lemma_finalize_only_when_complete(pre: ImageUpload, post: ImageUpload)
    requires
        lifecycle_step(pre, post),
        !pre.finalized,
        post.finalized,
    ensures
        pre.chunks_uploaded == pre.total_chunks,
        post.chunks_uploaded == post.total_chunks,
{
}

} // verus!
