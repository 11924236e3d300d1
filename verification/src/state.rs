use vstd::prelude::*;

use crate::constants::{MAX_CONTENT_TYPE_LENGTH, MAX_IMAGE_ID_LENGTH, MAX_TOTAL_CHUNKS};

verus! {

/// The owner's public key, carried as its 32 raw bytes. Signature checking
/// itself is an external collaborator; the core only records which key
/// controls a record and echoes it in notifications.
pub type Pubkey = [u8; 32];

/// Bytes of a serialized record besides the two variable-length strings:
/// an 8-byte structural tag, the 32-byte authority key, two 4-byte string
/// length prefixes, the two 4-byte counters, the 1-byte finalized flag, the
/// 8-byte timestamp and the 1-byte bump seed.
pub const RECORD_HEADER_BYTES: usize = 8 + 32 + 4 + 4 + 4 + 1 + 4 + 8 + 1;

/// The persisted state of one upload, one record per (owner, identifier)
/// pair. Only `chunks_uploaded` and `finalized` ever change after creation.
#[derive(Clone, Debug)]
pub struct ImageUpload {
    /// Exclusive controller of this record; set once at creation.
    pub authority: Pubkey,
    /// Client-chosen identifier, at most 64 bytes; immutable after creation.
    pub image_id: Vec<u8>,
    /// Declared chunk count, between 1 and 10000; immutable after creation.
    pub total_chunks: u32,
    /// How many chunks have been accepted so far; grows by one per
    /// successful AppendChunk and doubles as the next expected index.
    pub chunks_uploaded: u32,
    /// True once Finalize has succeeded; never reverts to false.
    pub finalized: bool,
    /// Client-supplied metadata tag, at most 32 bytes; immutable after
    /// creation.
    pub content_type: Vec<u8>,
    /// Creation timestamp, set once by the caller's clock.
    pub created_at: i64,
    /// Address-derivation bump seed, set once at creation.
    pub bump: u8,
}

impl ImageUpload {
    /// Field bounds that hold of every record this library creates:
    /// the declared chunk count and both string lengths are within the
    /// accepted limits.
    pub open spec fn wf(self) -> bool {
        &&& 1 <= self.total_chunks <= MAX_TOTAL_CHUNKS
        &&& self.image_id@.len() <= MAX_IMAGE_ID_LENGTH
        &&& self.content_type@.len() <= MAX_CONTENT_TYPE_LENGTH
    }
}

/// Exact byte count of a serialized record whose two variable-length
/// strings have the given lengths.
pub open spec fn spec_space(image_id_len: int, content_type_len: int) -> int {
    RECORD_HEADER_BYTES + image_id_len + content_type_len
}

impl ImageUpload {
    /// Exact capacity, in bytes, that a persisted record with these string
    /// lengths needs. Must be computed from the declared lengths before
    /// allocation; `to_bytes` writes exactly this many bytes, and the two
    /// may never be changed independently of each other.
    pub fn space(image_id_len: usize, content_type_len: usize) -> (r: usize)
        requires
            image_id_len <= MAX_IMAGE_ID_LENGTH,
            content_type_len <= MAX_CONTENT_TYPE_LENGTH,
        ensures
            r == spec_space(image_id_len as int, content_type_len as int),
    {
        8 // structural tag
        + 32 // authority
        + 4 + image_id_len // image_id, length-prefixed
        + 4 // total_chunks
        + 4 // chunks_uploaded
        + 1 // finalized
        + 4 + content_type_len // content_type, length-prefixed
        + 8 // created_at
        + 1 // bump
    }
}

/// The four bytes of `x`, least significant first.
pub open spec fn spec_u32_le(x: u32) -> Seq<u8> {
    seq![
        (x % 256) as u8,
        ((x / 256) % 256) as u8,
        ((x / 65536) % 256) as u8,
        ((x / 16777216) % 256) as u8,
    ]
}

/// The eight bytes of `x`, least significant first.
pub open spec fn spec_u64_le(x: u64) -> Seq<u8> {
    seq![
        (x % 256) as u8,
        ((x / 256) % 256) as u8,
        ((x / 65536) % 256) as u8,
        ((x / 16777216) % 256) as u8,
        ((x / 4294967296) % 256) as u8,
        ((x / 1099511627776) % 256) as u8,
        ((x / 281474976710656) % 256) as u8,
        ((x / 72057594037927936) % 256) as u8,
    ]
}

/// The timestamp's 64 bits read as an unsigned value (two's complement).
pub open spec fn spec_created_at_bits(created_at: i64) -> u64 {
    if created_at >= 0 {
        created_at as u64
    } else {
        ((created_at as int) + 0x1_0000_0000_0000_0000) as u64
    }
}

/// The exact persisted layout of a record under the given 8-byte structural
/// tag: every field in declaration order, strings prefixed by their length,
/// all integers little-endian, the flag as one byte.
pub open spec fn spec_serialized(r: ImageUpload, tag: Seq<u8>) -> Seq<u8> {
    tag + r.authority@ + spec_u32_le(r.image_id@.len() as u32) + r.image_id@
        + spec_u32_le(r.total_chunks) + spec_u32_le(r.chunks_uploaded)
        + seq![if r.finalized { 1u8 } else { 0u8 }]
        + spec_u32_le(r.content_type@.len() as u32) + r.content_type@
        + spec_u64_le(spec_created_at_bits(r.created_at)) + seq![r.bump]
}

/// The capacity `spec_space` declares is exactly the length `to_bytes`
/// writes, for any record and any 8-byte tag: the sizing arithmetic and the
/// persisted layout can never drift apart.
pub proof fn lemma_space_matches_serialized(r: ImageUpload, tag: Seq<u8>)
    requires
        tag.len() == 8,
    ensures
        spec_serialized(r, tag).len() == spec_space(
            r.image_id@.len() as int,
            r.content_type@.len() as int,
        ),
{
    assert(r.authority@.len() == 32);
}

fn push_bytes<const N: usize>(out: &mut Vec<u8>, bytes: &[u8; N])
    ensures
        final(out)@ == old(out)@ + bytes@,
{
    let mut i: usize = 0;
    while i < N
        invariant
            i <= N,
            out@ == old(out)@ + bytes@.take(i as int),
        decreases N - i,
    {
        out.push(bytes[i]);
        proof {
            assert(old(out)@ + bytes@.take(i as int) + seq![bytes@[i as int]] =~= old(out)@
                + bytes@.take(i as int + 1));
        }
        i = i + 1;
    }
    proof {
        assert(bytes@.take(N as int) =~= bytes@);
    }
}

fn push_vec(out: &mut Vec<u8>, bytes: &Vec<u8>)
    ensures
        final(out)@ == old(out)@ + bytes@,
{
    let mut i: usize = 0;
    while i < bytes.len()
        invariant
            i <= bytes@.len(),
            out@ == old(out)@ + bytes@.take(i as int),
        decreases bytes@.len() - i,
    {
        out.push(bytes[i]);
        proof {
            assert(old(out)@ + bytes@.take(i as int) + seq![bytes@[i as int]] =~= old(out)@
                + bytes@.take(i as int + 1));
        }
        i = i + 1;
    }
    proof {
        assert(bytes@.take(bytes@.len() as int) =~= bytes@);
    }
}

fn push_u32_le(out: &mut Vec<u8>, x: u32)
    ensures
        final(out)@ == old(out)@ + spec_u32_le(x),
{
    out.push((x % 256) as u8);
    out.push(((x / 256) % 256) as u8);
    out.push(((x / 65536) % 256) as u8);
    out.push(((x / 16777216) % 256) as u8);
    proof {
        assert(out@ =~= old(out)@ + spec_u32_le(x));
    }
}

fn push_u64_le(out: &mut Vec<u8>, x: u64)
    ensures
        final(out)@ == old(out)@ + spec_u64_le(x),
{
    out.push((x % 256) as u8);
    out.push(((x / 256) % 256) as u8);
    out.push(((x / 65536) % 256) as u8);
    out.push(((x / 16777216) % 256) as u8);
    out.push(((x / 4294967296) % 256) as u8);
    out.push(((x / 1099511627776) % 256) as u8);
    out.push(((x / 281474976710656) % 256) as u8);
    out.push(((x / 72057594037927936) % 256) as u8);
    proof {
        assert(out@ =~= old(out)@ + spec_u64_le(x));
    }
}

fn created_at_bits(created_at: i64) -> (r: u64)
    ensures
        r == spec_created_at_bits(created_at),
{
    if created_at >= 0 {
        created_at as u64
    } else {
        let magnitude: i64 = -(created_at + 1);
        u64::MAX - (magnitude as u64)
    }
}

impl ImageUpload {
    /// Serializes the record into its exact persisted layout, starting with
    /// the caller's 8-byte structural tag. The result is always
    /// `spec_serialized` and its length always matches `spec_space` for this
    /// record's string lengths.
    pub fn to_bytes(&self, tag: &[u8; 8]) -> (out: Vec<u8>)
        requires
            self.image_id@.len() <= MAX_IMAGE_ID_LENGTH,
            self.content_type@.len() <= MAX_CONTENT_TYPE_LENGTH,
        ensures
            out@ == spec_serialized(*self, tag@),
            out@.len() == spec_space(self.image_id@.len() as int, self.content_type@.len() as int),
    {
        let mut out: Vec<u8> = Vec::new();
        push_bytes(&mut out, tag);
        push_bytes(&mut out, &self.authority);
        push_u32_le(&mut out, self.image_id.len() as u32);
        push_vec(&mut out, &self.image_id);
        push_u32_le(&mut out, self.total_chunks);
        push_u32_le(&mut out, self.chunks_uploaded);
        out.push(if self.finalized { 1 } else { 0 });
        push_u32_le(&mut out, self.content_type.len() as u32);
        push_vec(&mut out, &self.content_type);
        push_u64_le(&mut out, created_at_bits(self.created_at));
        out.push(self.bump);
        proof {
            assert(out@ =~= spec_serialized(*self, tag@));
            lemma_space_matches_serialized(*self, tag@);
        }
        out
    }
}

} // verus!
