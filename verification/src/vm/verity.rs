//! The hash tree over the blocks of an image.
//!
//! The image is cut into blocks of a fixed size. The leaves of the tree are
//! the SHA-256 digests of the blocks; a node above two nodes is the digest
//! of their digests put together; a node without a neighbour moves up as it
//! is. The root stands for the whole image.

use crate::vm::signature::{hex_encode, hex_of, sha256, sha256_digest};
use vstd::prelude::*;
use vstd::slice::slice_subrange;

verus! {

/// The size of a block in bytes.
pub const BLOCK_SIZE: usize = 4096;

/// The number of blocks of an image of `len` bytes. The last block may be
/// short; an empty image has no block.
pub open spec fn block_count(len: nat) -> nat {
    ((len + BLOCK_SIZE - 1) / (BLOCK_SIZE as int)) as nat
}

/// Where block number `i` of an image of `len` bytes ends.
pub open spec fn block_end(len: nat, i: int) -> int {
    if (i + 1) * BLOCK_SIZE <= len {
        (i + 1) * BLOCK_SIZE
    } else {
        len as int
    }
}

/// Block number `i` of an image.
pub open spec fn block_of(data: Seq<u8>, i: int) -> Seq<u8> {
    data.subrange(i * BLOCK_SIZE, block_end(data.len(), i))
}

/// The leaves of the tree: the digests of the blocks.
pub open spec fn leaf_hashes(data: Seq<u8>) -> Seq<Seq<u8>> {
    Seq::new(block_count(data.len()), |i: int| sha256(block_of(data, i)))
}

/// The level above a level of the tree.
pub open spec fn level_up(nodes: Seq<Seq<u8>>) -> Seq<Seq<u8>> {
    Seq::new(
        ((nodes.len() + 1) / 2) as nat,
        |i: int|
            if 2 * i + 1 < nodes.len() {
                sha256(nodes[2 * i] + nodes[2 * i + 1])
            } else {
                nodes[2 * i]
            },
    )
}

/// The root above a level of the tree. The root of no nodes at all is the
/// digest of nothing.
pub open spec fn root_of(nodes: Seq<Seq<u8>>) -> Seq<u8>
    decreases nodes.len(),
{
    if nodes.len() == 0 {
        sha256(Seq::empty())
    } else if nodes.len() == 1 {
        nodes[0]
    } else {
        root_of(level_up(nodes))
    }
}

/// The root of the hash tree of an image.
pub open spec fn merkle_root_of(data: Seq<u8>) -> Seq<u8> {
    root_of(leaf_hashes(data))
}

/// The byte sequences that a list of byte vectors holds.
pub open spec fn hashes_of(nodes: Seq<Vec<u8>>) -> Seq<Seq<u8>> {
    Seq::new(nodes.len(), |i: int| nodes[i]@)
}

/// The bytes of `a` followed by the bytes of `b`.
fn joined(a: &Vec<u8>, b: &Vec<u8>) -> (out: Vec<u8>)
    ensures
        out@ == a@ + b@,
{
    let mut out: Vec<u8> = Vec::new();
    let mut i: usize = 0;
    while i < a.len()
        invariant
            i <= a.len(),
            out@ == a@.take(i as int),
        decreases a.len() - i,
    {
        assert(a@.take(i + 1) =~= a@.take(i as int).push(a@[i as int]));
        out.push(a[i]);
        i += 1;
    }
    assert(a@.take(a.len() as int) =~= a@);
    let mut j: usize = 0;
    while j < b.len()
        invariant
            j <= b.len(),
            out@ == a@ + b@.take(j as int),
        decreases b.len() - j,
    {
        assert(a@ + b@.take(j + 1) =~= (a@ + b@.take(j as int)).push(b@[j as int]));
        out.push(b[j]);
        j += 1;
    }
    assert(b@.take(b.len() as int) =~= b@);
    out
}

/// The digests of the blocks of an image.
pub fn leaves(image: &[u8]) -> (out: Vec<Vec<u8>>)
    ensures
        hashes_of(out@) == leaf_hashes(image@),
{
    let count: usize = if image.len() == 0 {
        0
    } else {
        (image.len() - 1) / BLOCK_SIZE + 1
    };
    assert(count == block_count(image@.len()));
    let mut nodes: Vec<Vec<u8>> = Vec::new();
    let mut k: usize = 0;
    while k < count
        invariant
            k <= count,
            nodes.len() == k,
            count == block_count(image@.len()),
            image.len() > 0 ==> count == (image.len() - 1) / (BLOCK_SIZE as int) + 1,
            forall|j: int| 0 <= j < k ==> nodes@[j]@ == sha256(block_of(image@, j)),
        decreases count - k,
    {
        assert(k * BLOCK_SIZE <= image.len() - 1) by (nonlinear_arith)
            requires
                k <= (image.len() - 1) / (BLOCK_SIZE as int),
                BLOCK_SIZE == 4096,
                image.len() >= 1,
        ;
        let start: usize = k * BLOCK_SIZE;
        let end: usize = if image.len() - start > BLOCK_SIZE {
            start + BLOCK_SIZE
        } else {
            image.len()
        };
        assert(end == block_end(image@.len(), k as int));
        let block = slice_subrange(image, start, end);
        let digest = sha256_digest(block);
        nodes.push(digest);
        k += 1;
    }
    assert(hashes_of(nodes@) =~= leaf_hashes(image@));
    nodes
}

/// The level above a level of the tree.
pub fn next_level(nodes: &Vec<Vec<u8>>) -> (out: Vec<Vec<u8>>)
    ensures
        hashes_of(out@) == level_up(hashes_of(nodes@)),
{
    let ghost below = hashes_of(nodes@);
    let count: usize = nodes.len() / 2 + nodes.len() % 2;
    let mut next: Vec<Vec<u8>> = Vec::new();
    let mut k: usize = 0;
    while k < count
        invariant
            k <= count,
            next.len() == k,
            count == (nodes.len() + 1) / 2,
            below == hashes_of(nodes@),
            forall|j: int| 0 <= j < k ==> next@[j]@ == level_up(below)[j],
        decreases count - k,
    {
        let i: usize = 2 * k;
        if nodes.len() - i > 1 {
            let both = joined(&nodes[i], &nodes[i + 1]);
            let digest = sha256_digest(both.as_slice());
            next.push(digest);
        } else {
            let alone = joined(&nodes[i], &Vec::new());
            assert(alone@ =~= nodes@[i as int]@);
            next.push(alone);
        }
        k += 1;
    }
    assert(hashes_of(next@) =~= level_up(below));
    next
}

/// The root of the hash tree of an image.
pub fn merkle_root(image: &[u8]) -> (out: Vec<u8>)
    ensures
        out@ == merkle_root_of(image@),
{
    let mut nodes = leaves(image);
    if nodes.len() == 0 {
        let nothing: Vec<u8> = Vec::new();
        assert(nothing@ =~= Seq::<u8>::empty());
        return sha256_digest(nothing.as_slice());
    }
    while nodes.len() > 1
        invariant
            nodes.len() >= 1,
            root_of(hashes_of(nodes@)) == merkle_root_of(image@),
        decreases nodes.len(),
    {
        let next = next_level(&nodes);
        assert(hashes_of(next@).len() == (nodes.len() + 1) / 2);
        nodes = next;
    }
    let root = joined(&nodes[0], &Vec::new());
    assert(root@ =~= nodes@[0]@);
    root
}

/// The root of the hash tree of an image, in hexadecimal.
pub fn merkle_root_hex(image: &[u8]) -> (out: String)
    ensures
        out@ == hex_of(merkle_root_of(image@)),
{
    let root = merkle_root(image);
    hex_encode(root.as_slice())
}

/// An image of one block at most has the digest of that block as its root,
/// and an empty image the digest of nothing.
pub proof fn lemma_small_image_root(data: Seq<u8>)
    requires
        data.len() <= BLOCK_SIZE,
    ensures
        merkle_root_of(data) == sha256(data),
{
    if data.len() == 0 {
        assert(leaf_hashes(data).len() == 0);
        assert(data =~= Seq::<u8>::empty());
    } else {
        assert(leaf_hashes(data).len() == 1);
        assert(block_of(data, 0) =~= data);
    }
}

} // verus!
