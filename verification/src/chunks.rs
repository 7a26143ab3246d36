//! The binary chunker: splits a byte buffer into offset-tagged chunks.
//!
//! A chunk is an `(offset, bytes)` pair.  Chunk `i` starts at byte offset
//! `i * chunk_size`; every chunk but the last carries exactly `chunk_size`
//! bytes, and the last carries the remainder.  Together the chunks cover
//! the buffer exactly once, in order.

use vstd::prelude::*;
use vstd::arithmetic::div_mod::{lemma_fundamental_div_mod, lemma_mod_division_less_than_divisor};

verus! {

/// One offset-tagged slice of a binary payload, sized to fit one
/// transaction.
#[derive(Debug, Clone)]
pub struct Chunk {
    /// Byte offset of this chunk within the whole payload.
    pub offset: u32,
    /// The chunk's bytes.
    pub bytes: Vec<u8>,
}

/// Number of chunks a buffer of `len` bytes yields at chunk size `size`.
pub open spec fn spec_chunk_count(len: nat, size: nat) -> nat {
    if size == 0 {
        0
    } else if len % size == 0 {
        len / size
    } else {
        len / size + 1
    }
}

/// Where chunk `i` ends (exclusive), clipped to the buffer's length.
pub open spec fn spec_chunk_end(len: nat, size: nat, i: nat) -> nat {
    if (i + 1) * size <= len {
        ((i + 1) * size) as nat
    } else {
        len
    }
}

/// The bytes of chunk `i` of `data` at chunk size `size`.
pub open spec fn spec_chunk_bytes(data: Seq<u8>, size: nat, i: nat) -> Seq<u8> {
    data.subrange((i * size) as int, spec_chunk_end(data.len(), size, i) as int)
}

/// The in-order concatenation of a sequence of byte sequences.
pub open spec fn spec_concat(parts: Seq<Seq<u8>>) -> Seq<u8>
    decreases parts.len(),
{
    if parts.len() == 0 {
        Seq::empty()
    } else {
        spec_concat(parts.drop_last()) + parts.last()
    }
}

/// The full chunk list of `data` at chunk size `size`, as a sequence of
/// byte sequences.
pub open spec fn spec_chunk_seq(data: Seq<u8>, size: nat) -> Seq<Seq<u8>> {
    Seq::new(spec_chunk_count(data.len(), size), |i: int| spec_chunk_bytes(data, size, i as nat))
}

/// The smaller of `x` and `len`.
pub open spec fn spec_clip(x: nat, len: nat) -> nat {
    if x <= len {
        x
    } else {
        len
    }
}

/// Basic bounds of the chunk count: `count * size` covers the buffer, and
/// the chunk before the last starts strictly inside it.
pub proof fn lemma_chunk_count_bounds(len: nat, size: nat)
    requires
        size > 0,
    ensures
        len <= spec_chunk_count(len, size) * size,
        len > 0 ==> spec_chunk_count(len, size) >= 1,
        len > 0 ==> (spec_chunk_count(len, size) - 1) * size < len,
        len == 0 ==> spec_chunk_count(len, size) == 0,
{
    lemma_fundamental_div_mod(len as int, size as int);
    lemma_mod_division_less_than_divisor(len as int, size as int);
    let q = len / size;
    let m = len % size;
    assert(size * q == q * size) by (nonlinear_arith);
    if m == 0 {
        assert(len == size * q);
        if len > 0 {
            assert(q >= 1) by (nonlinear_arith)
                requires q * size == len, len > 0, size > 0, q >= 0,
            ;
            assert((spec_chunk_count(len, size) - 1) * size == q * size - size)
                by (nonlinear_arith)
                requires spec_chunk_count(len, size) == q,
            ;
        }
    } else {
        assert(spec_chunk_count(len, size) * size == q * size + size) by (nonlinear_arith)
            requires spec_chunk_count(len, size) == q + 1,
        ;
        assert((spec_chunk_count(len, size) - 1) * size == q * size) by (nonlinear_arith)
            requires spec_chunk_count(len, size) == q + 1,
        ;
    }
}

/// Length of the last chunk: `len % size` when that is nonzero, else a
/// full `size` (for a non-empty buffer).
pub proof fn lemma_last_chunk_len(len: nat, size: nat)
    requires
        size > 0,
        len > 0,
    ensures
        len - (spec_chunk_count(len, size) - 1) * size == if len % size == 0 {
            size as int
        } else {
            (len % size) as int
        },
{
    lemma_fundamental_div_mod(len as int, size as int);
    lemma_mod_division_less_than_divisor(len as int, size as int);
    lemma_chunk_count_bounds(len, size);
    let q = len / size;
    let m = len % size;
    assert(size * q == q * size) by (nonlinear_arith);
    if m == 0 {
        assert((spec_chunk_count(len, size) - 1) * size == q * size - size) by (nonlinear_arith)
            requires spec_chunk_count(len, size) == q,
        ;
    } else {
        assert((spec_chunk_count(len, size) - 1) * size == q * size) by (nonlinear_arith)
            requires spec_chunk_count(len, size) == q + 1,
        ;
    }
}

/// Lengths across the chunk list of a non-empty buffer: every chunk but
/// the last carries exactly `size` bytes, and the last carries
/// `len % size` bytes when that is nonzero, else a full `size`.
pub proof fn lemma_chunk_lengths(data: Seq<u8>, size: nat)
    requires
        size > 0,
        data.len() > 0,
    ensures
        forall|i: int|
            0 <= i < spec_chunk_count(data.len(), size) - 1
                ==> #[trigger] spec_chunk_seq(data, size)[i].len() == size,
        spec_chunk_seq(data, size)[spec_chunk_count(data.len(), size) - 1].len()
            == if data.len() % size == 0 {
            size as int
        } else {
            (data.len() % size) as int
        },
{
    let len = data.len();
    let c = spec_chunk_count(len, size);
    lemma_chunk_count_bounds(len, size);
    lemma_last_chunk_len(len, size);
    assert forall|i: int| 0 <= i < c - 1 implies #[trigger] spec_chunk_seq(data, size)[i].len()
        == size by {
        lemma_chunk_in_bounds(len, size, i as nat);
        assert((i + 1) * size <= (c - 1) * size) by (nonlinear_arith)
            requires i + 1 <= c - 1, size > 0,
        ;
        assert(spec_chunk_end(len, size, i as nat) == (i + 1) * size);
        assert((i + 1) * size - i * size == size) by (nonlinear_arith);
    }
    lemma_chunk_in_bounds(len, size, (c - 1) as nat);
    assert(spec_chunk_end(len, size, (c - 1) as nat) == len) by {
        assert(((c - 1) + 1) * size == c * size);
        if c * size <= len {
            assert(len == c * size);
        }
    }
}

/// Every chunk index below the count starts strictly inside the buffer
/// and ends no later than the buffer does.
pub proof fn lemma_chunk_in_bounds(len: nat, size: nat, i: nat)
    requires
        size > 0,
        i < spec_chunk_count(len, size),
    ensures
        i * size < len,
        i * size <= spec_chunk_end(len, size, i),
        spec_chunk_end(len, size, i) <= len,
{
    lemma_chunk_count_bounds(len, size);
    let c = spec_chunk_count(len, size);
    assert(i * size <= (c - 1) * size) by (nonlinear_arith)
        requires i <= c - 1, size > 0,
    ;
    assert(i * size <= (i + 1) * size) by (nonlinear_arith)
        requires size > 0,
    ;
}

/// Concatenating the first `k` chunks reproduces the buffer's prefix up to
/// the start of chunk `k`.
proof fn lemma_concat_prefix(data: Seq<u8>, size: nat, k: nat)
    requires
        size > 0,
        k <= spec_chunk_count(data.len(), size),
    ensures
        spec_concat(spec_chunk_seq(data, size).take(k as int)) == data.take(
            spec_clip(k * size, data.len()) as int,
        ),
    decreases k,
{
    let cs = spec_chunk_seq(data, size);
    let len = data.len();
    if k == 0 {
        assert(cs.take(0) =~= Seq::<Seq<u8>>::empty());
        assert(spec_concat(cs.take(0)) =~= data.take(0));
    } else {
        let j = (k - 1) as nat;
        lemma_concat_prefix(data, size, j);
        lemma_chunk_in_bounds(len, size, j);
        let endj = spec_chunk_end(len, size, j);
        assert(cs.take(k as int).len() == k);
        assert(cs.take(k as int).drop_last() =~= cs.take(j as int));
        assert(cs.take(k as int).last() == cs[j as int]);
        assert(cs[j as int] == spec_chunk_bytes(data, size, j));
        assert(spec_concat(cs.take(k as int)) == spec_concat(cs.take(j as int))
            + spec_chunk_bytes(data, size, j));
        assert(spec_clip(j * size, len) == j * size);
        assert(k as int == j as int + 1);
        assert((j + 1) * size == k * size);
        assert(endj == spec_clip(k * size, len));
        assert(data.take((j * size) as int) + data.subrange((j * size) as int, endj as int)
            =~= data.take(endj as int));
        assert(spec_concat(cs.take(k as int)) == data.take(spec_clip(k * size, len) as int));
    }
}

/// Concatenating the whole chunk list, in order, reproduces the buffer
/// exactly.
pub proof fn lemma_chunks_reassemble(data: Seq<u8>, size: nat)
    requires
        size > 0,
    ensures
        spec_concat(spec_chunk_seq(data, size)) == data,
{
    let c = spec_chunk_count(data.len(), size);
    lemma_chunk_count_bounds(data.len(), size);
    lemma_concat_prefix(data, size, c);
    assert(spec_chunk_seq(data, size).take(c as int) =~= spec_chunk_seq(data, size));
    assert(data.take(spec_clip(c * size, data.len()) as int) =~= data);
}

/// Split `data` into chunks of `chunk_size` bytes.  Chunk `i` carries the
/// offset `i * chunk_size`; the last chunk may be shorter than
/// `chunk_size`.  Each call derives the chunk list from the buffer afresh.
pub fn chunk_payload(data: &Vec<u8>, chunk_size: usize) -> (r: Vec<Chunk>)
    requires
        chunk_size > 0,
        data@.len() <= u32::MAX,
    ensures
        r@.len() == spec_chunk_count(data@.len(), chunk_size as nat),
        forall|i: int|
            0 <= i < r@.len() ==> #[trigger] r@[i].offset == i * (chunk_size as int),
        forall|i: int|
            0 <= i < r@.len() ==> #[trigger] r@[i].bytes@ == spec_chunk_bytes(
                data@,
                chunk_size as nat,
                i as nat,
            ),
{
    let len = data.len();
    let mut chunks: Vec<Chunk> = Vec::new();
    let mut start: usize = 0;
    proof {
        lemma_chunk_count_bounds(len as nat, chunk_size as nat);
        assert(chunks@.len() == 0);
        assert(chunks@.len() * chunk_size == 0) by (nonlinear_arith)
            requires chunks@.len() == 0,
        ;
    }
    while start < len
        invariant
            chunk_size > 0,
            len == data@.len(),
            len <= u32::MAX,
            start <= len,
            start < len ==> start == chunks@.len() * chunk_size,
            start >= len ==> chunks@.len() == spec_chunk_count(len as nat, chunk_size as nat),
            start < len ==> chunks@.len() < spec_chunk_count(len as nat, chunk_size as nat),
            forall|i: int|
                0 <= i < chunks@.len() ==> #[trigger] chunks@[i].offset == i * (chunk_size as int),
            forall|i: int|
                0 <= i < chunks@.len() ==> #[trigger] chunks@[i].bytes@ == spec_chunk_bytes(
                    data@,
                    chunk_size as nat,
                    i as nat,
                ),
        decreases len - start,
    {
        let end: usize = if chunk_size < len - start {
            start + chunk_size
        } else {
            len
        };
        let mut bytes: Vec<u8> = Vec::new();
        let mut j: usize = start;
        proof {
            assert(bytes@ =~= data@.subrange(start as int, start as int));
        }
        while j < end
            invariant
                start <= j <= end,
                end <= len,
                len == data@.len(),
                bytes@ == data@.subrange(start as int, j as int),
            decreases end - j,
        {
            bytes.push(data[j]);
            proof {
                assert(bytes@ =~= data@.subrange(start as int, j as int + 1));
            }
            j += 1;
        }
        let k: Ghost<nat> = Ghost(chunks@.len() as nat);
        proof {
            lemma_chunk_count_bounds(len as nat, chunk_size as nat);
            assert((k@ + 1) * chunk_size == k@ * chunk_size + chunk_size) by (nonlinear_arith);
            assert(spec_chunk_end(len as nat, chunk_size as nat, k@) == end);
            assert(bytes@ == spec_chunk_bytes(data@, chunk_size as nat, k@));
            // the next chunk count comparison after this push
            if end < len {
                assert(k@ + 1 < spec_chunk_count(len as nat, chunk_size as nat)) by {
                    assert((k@ + 1) * chunk_size < len as nat);
                    lemma_chunk_count_bounds(len as nat, chunk_size as nat);
                    let c = spec_chunk_count(len as nat, chunk_size as nat);
                    assert(len <= c * chunk_size);
                    assert((k@ + 1) * chunk_size < c * chunk_size);
                    assert(k@ + 1 < c) by (nonlinear_arith)
                        requires
                            (k@ + 1) * chunk_size < c * chunk_size,
                            chunk_size > 0,
                    ;
                }
            } else {
                assert(k@ + 1 == spec_chunk_count(len as nat, chunk_size as nat)) by {
                    let c = spec_chunk_count(len as nat, chunk_size as nat);
                    assert(k@ < c);
                    assert(k@ * chunk_size < len as nat);
                    assert(len as nat <= (k@ + 1) * chunk_size);
                    if k@ + 1 < c {
                        assert((k@ + 1) * chunk_size <= (c - 1) * chunk_size) by (nonlinear_arith)
                            requires
                                k@ + 1 <= c - 1,
                                chunk_size > 0,
                        ;
                        assert((c - 1) * chunk_size < len as nat);
                        assert(false);
                    }
                }
            }
        }
        chunks.push(Chunk { offset: start as u32, bytes });
        start = end;
    }
    chunks
}

/// The byte sequences a chunk list carries, in order.
pub open spec fn spec_chunk_views(chunks: Seq<Chunk>) -> Seq<Seq<u8>> {
    chunks.map(|k: int, c: Chunk| c.bytes@)
}

/// Concatenate a chunk list's bytes back into one buffer, in order.
pub fn reassemble(chunks: &Vec<Chunk>) -> (r: Vec<u8>)
    ensures
        r@ == spec_concat(spec_chunk_views(chunks@)),
{
    let mut out: Vec<u8> = Vec::new();
    let mut i: usize = 0;
    proof {
        assert(spec_chunk_views(chunks@).take(0) =~= Seq::<Seq<u8>>::empty());
        assert(out@ =~= spec_concat(spec_chunk_views(chunks@).take(0)));
    }
    while i < chunks.len()
        invariant
            i <= chunks@.len(),
            out@ == spec_concat(spec_chunk_views(chunks@).take(i as int)),
        decreases chunks@.len() - i,
    {
        let mut j: usize = 0;
        let chunk_len = chunks[i].bytes.len();
        proof {
            assert(out@ =~= spec_concat(spec_chunk_views(chunks@).take(i as int))
                + chunks@[i as int].bytes@.take(0));
        }
        while j < chunk_len
            invariant
                j <= chunk_len,
                i < chunks@.len(),
                chunk_len == chunks@[i as int].bytes@.len(),
                out@ == spec_concat(spec_chunk_views(chunks@).take(i as int))
                    + chunks@[i as int].bytes@.take(j as int),
            decreases chunk_len - j,
        {
            out.push(chunks[i].bytes[j]);
            proof {
                assert(out@ =~= spec_concat(spec_chunk_views(chunks@).take(i as int))
                    + chunks@[i as int].bytes@.take(j as int + 1));
            }
            j += 1;
        }
        proof {
            let m = spec_chunk_views(chunks@);
            assert(m.take(i as int + 1).drop_last() =~= m.take(i as int));
            assert(m.take(i as int + 1).last() == chunks@[i as int].bytes@);
            assert(chunks@[i as int].bytes@.take(chunk_len as int) =~= chunks@[i as int].bytes@);
            assert(out@ =~= spec_concat(m.take(i as int + 1)));
        }
        i += 1;
    }
    proof {
        assert(spec_chunk_views(chunks@).take(chunks@.len() as int) =~= spec_chunk_views(chunks@));
    }
    out
}

} // verus!
