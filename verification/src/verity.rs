//! dm-verity Merkle-tree root hash of a layer's byte contents.
//!
//! The on-disk format is the dm-verity version-1 layout with a 4096-byte
//! data-block size, a 4096-byte hash-block size, SHA-256, and a 32-byte
//! zero salt: every data block is hashed with the salt prepended, the
//! digests are packed into hash blocks that are zero-padded to the block
//! size, and the levels are repeated until a single hash block remains;
//! its digest is the root.

use crate::hashing::{hex_of, sha256, sha256_of, to_hex};
use vstd::prelude::*;

verus! {

/// Data-block and hash-block size of the tree.
pub const BLOCK_SIZE: usize = 4096;

/// Length of a SHA-256 digest.
pub const DIGEST_SIZE: usize = 32;

/// The 32-byte zero salt the tree is built with.
pub open spec fn zero_salt() -> Seq<u8> {
    Seq::new(32, |i: int| 0u8)
}

/// Zero-pad a partial block to the full block size.
pub open spec fn pad_block(s: Seq<u8>) -> Seq<u8>
    recommends
        s.len() <= 4096,
{
    s + Seq::new((4096 - s.len()) as nat, |i: int| 0u8)
}

/// A digest occupies exactly 32 bytes of its hash block.  SHA-256 digests
/// have that length, so this changes nothing on them; stating the slot
/// width here keeps the tree layout independent of the digest function.
pub open spec fn digest32(s: Seq<u8>) -> Seq<u8> {
    Seq::new(32, |i: int| if i < s.len() { s[i] } else { 0u8 })
}

/// Digest of one block: the salt precedes the block bytes.
pub open spec fn block_digest(block: Seq<u8>) -> Seq<u8> {
    digest32(sha256_of(zero_salt() + block))
}

/// Digests of all 4096-byte chunks of `s`, concatenated; the last chunk
/// is zero-padded.  Applied to the layer bytes this is the lowest tree
/// level, applied to a level it is the level above it.
pub open spec fn chunk_digests(s: Seq<u8>) -> Seq<u8>
    decreases s.len(),
{
    if s.len() <= 4096 {
        block_digest(pad_block(s))
    } else {
        block_digest(s.take(4096)) + chunk_digests(s.skip(4096))
    }
}

/// Root digest of the tree over a level: once a level fits in one hash
/// block, the root is that block's digest.
pub open spec fn root_digest_of(level: Seq<u8>) -> Seq<u8>
    decreases level.len(),
    via root_digest_of_decreases
{
    if level.len() <= 4096 {
        block_digest(pad_block(level))
    } else {
        root_digest_of(chunk_digests(level))
    }
}

#[via_fn]
proof fn root_digest_of_decreases(level: Seq<u8>) {
    if level.len() > 4096 {
        lemma_chunk_digests_len(level);
        lemma_chunks_shrink(level.len() as int);
    }
}

/// The dm-verity root digest of the layer bytes.
pub open spec fn verity_root(data: Seq<u8>) -> Seq<u8> {
    root_digest_of(chunk_digests(data))
}

/// A layer too small to carry even one data block.
#[derive(Clone, Copy, PartialEq, Eq, Structural, Debug)]
pub enum VerityError {
    FileTooSmall,
}

/// Each chunk contributes one 32-byte digest.
pub proof fn lemma_chunk_digests_len(s: Seq<u8>)
    requires
        s.len() >= 1,
    ensures
        chunk_digests(s).len() == 32 * ((s.len() + 4095) / 4096),
        s.len() <= 4096 ==> chunk_digests(s).len() == 32,
    decreases s.len(),
{
    if s.len() <= 4096 {
        assert((s.len() + 4095) / 4096 == 1);
    } else {
        lemma_chunk_digests_len(s.skip(4096));
        assert((s.len() + 4095) / 4096 == 1 + ((s.len() - 4096 + 4095) / 4096)) by (nonlinear_arith)
            requires
                s.len() > 4096,
        ;
    }
}

/// A level above a level that overflows one hash block is strictly smaller.
proof fn lemma_chunks_shrink(n: int)
    requires
        n > 4096,
    ensures
        32 * ((n + 4095) / 4096) < n,
{
    assert(32 * ((n + 4095) / 4096) < n) by (nonlinear_arith)
        requires
            n > 4096,
    ;
}

/// Verity hashes are stable across runs and independent of cache
/// presence: any two hashes obtained for the same layer bytes — freshly
/// computed, or replayed from a cache entry that was recorded for those
/// bytes — are equal, because the root is a function of the bytes alone.
pub proof fn lemma_verity_hash_stable(data: Seq<u8>, first: Seq<char>, second: Seq<char>)
    ensures
        first == hex_of(verity_root(data)) && second == hex_of(verity_root(data)) ==> first
            == second,
{
}

/// Digest of the padded chunk `bytes[start..end]`, salt first.
fn hash_padded_chunk(bytes: &Vec<u8>, start: usize, end: usize) -> (digest: Vec<u8>)
    requires
        start <= end <= bytes@.len(),
        end - start <= 4096,
    ensures
        digest@ == block_digest(pad_block(bytes@.subrange(start as int, end as int))),
        digest@.len() == 32,
{
    let mut buf: Vec<u8> = Vec::new();
    let mut i: usize = 0;
    while i < 32
        invariant
            i <= 32,
            buf@ =~= zero_salt().take(i as int),
        decreases 32 - i,
    {
        buf.push(0u8);
        i += 1;
    }
    assert(buf@ =~= zero_salt());
    let mut j: usize = start;
    while j < end
        invariant
            start <= j <= end <= bytes@.len(),
            buf@ =~= zero_salt() + bytes@.subrange(start as int, j as int),
        decreases end - j,
    {
        buf.push(bytes[j]);
        j += 1;
    }
    let mut pad: usize = 4096 - (end - start);
    while pad > 0
        invariant
            end - start <= 4096,
            buf@ =~= zero_salt() + bytes@.subrange(start as int, end as int) + Seq::new(
                (4096 - (end - start) - pad) as nat,
                |i: int| 0u8,
            ),
            pad <= 4096 - (end - start),
        decreases pad,
    {
        buf.push(0u8);
        pad -= 1;
    }
    assert(buf@ =~= zero_salt() + pad_block(bytes@.subrange(start as int, end as int)));
    let digest = sha256(buf.as_slice());
    assert(digest@ =~= digest32(sha256_of(buf@)));
    digest
}

/// One tree level: the concatenated digests of all 4096-byte chunks.
fn level_digests(level: &Vec<u8>) -> (out: Vec<u8>)
    requires
        level@.len() > 4096,
    ensures
        out@ == chunk_digests(level@),
{
    let mut out: Vec<u8> = Vec::new();
    let mut offset: usize = 0;
    let len = level.len();
    assert(level@.skip(0) == level@);
    while len - offset > 4096
        invariant
            offset <= len,
            len == level@.len(),
            chunk_digests(level@) =~= out@ + chunk_digests(level@.skip(offset as int)),
        decreases len - offset,
    {
        let mut digest = hash_padded_chunk(level, offset, offset + 4096);
        proof {
            assert(level@.skip(offset as int).take(4096) =~= level@.subrange(
                offset as int,
                offset + 4096,
            ));
            assert(level@.skip(offset as int).skip(4096) =~= level@.skip(offset + 4096));
            assert(pad_block(level@.subrange(offset as int, offset + 4096)) =~= level@.subrange(
                offset as int,
                offset + 4096,
            ));
        }
        out.append(&mut digest);
        offset += 4096;
    }
    let mut digest = hash_padded_chunk(level, offset, len);
    proof {
        assert(level@.skip(offset as int) =~= level@.subrange(offset as int, len as int));
    }
    out.append(&mut digest);
    out
}

/// dm-verity root hash of a layer's bytes, as a lowercase hex string.
/// A layer smaller than one data block is rejected.
pub fn verity_root_hash(data: &Vec<u8>) -> (result: Result<String, VerityError>)
    ensures
        data@.len() < 4096 ==> result == Result::<String, VerityError>::Err(
            VerityError::FileTooSmall,
        ),
        data@.len() >= 4096 ==> result is Ok && result->Ok_0@ == hex_of(verity_root(data@)),
{
    if data.len() < 4096 {
        return Err(VerityError::FileTooSmall);
    }
    let mut level: Vec<u8> = if data.len() > 4096 {
        level_digests(data)
    } else {
        hash_padded_chunk(data, 0, data.len())
    };
    proof {
        if data@.len() == 4096 {
            assert(data@.subrange(0, 4096) =~= data@);
        }
        assert(level@ == chunk_digests(data@));
        lemma_chunk_digests_len(data@);
    }
    while level.len() > 4096
        invariant
            root_digest_of(level@) == verity_root(data@),
            level@.len() >= 1,
        decreases level@.len(),
    {
        proof {
            lemma_chunk_digests_len(level@);
            lemma_chunks_shrink(level@.len() as int);
        }
        level = level_digests(&level);
    }
    let root = hash_padded_chunk(&level, 0, level.len());
    proof {
        assert(level@.subrange(0, level@.len() as int) =~= level@);
    }
    Ok(to_hex(&root))
}

} // verus!
