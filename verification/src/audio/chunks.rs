//! Cutting a run of samples into successive chunks of one size.

use vstd::prelude::*;

verus! {

/// Number of chunks of `size` samples that `len` samples fill; the last may
/// be partial.
pub open spec fn chunk_count(len: nat, size: nat) -> nat {
    ((len + size - 1) / (size as int)) as nat
}

/// Chunk `k` of `samples` cut at every `size` samples.
pub open spec fn chunk_at(samples: Seq<i16>, size: nat, k: int) -> Seq<i16> {
    samples.subrange(
        k * size,
        if (k + 1) * size <= samples.len() {
            (k + 1) * size
        } else {
            samples.len() as int
        },
    )
}

/// `samples` cut into successive chunks of `size`; the last is what is left.
pub open spec fn chunks_of(samples: Seq<i16>, size: nat) -> Seq<Seq<i16>> {
    Seq::new(chunk_count(samples.len(), size), |k: int| chunk_at(samples, size, k))
}

/// The chunks of a queue joined in order.
pub open spec fn flattened(queue: Seq<Seq<i16>>) -> Seq<i16>
    decreases queue.len(),
{
    if queue.len() == 0 {
        Seq::empty()
    } else {
        queue[0] + flattened(queue.drop_first())
    }
}

/// No samples fill no chunk.
pub proof fn lemma_no_samples_no_chunks(size: nat)
    requires
        size > 0,
    ensures
        chunk_count(0, size) == 0,
{
    assert((0 + size - 1) / (size as int) == 0) by (nonlinear_arith)
        requires
            size > 0,
    ;
}

/// After chunk `k`, which ends at `end`, either more samples follow and
/// `end` is where chunk `k + 1` starts, or `k + 1` chunks are all there are.
pub proof fn lemma_chunk_step(len: nat, size: nat, k: int, end: int)
    requires
        size > 0,
        0 <= k,
        k * size < len,
        end == if (k + 1) * size <= len {
            (k + 1) * size
        } else {
            len as int
        },
    ensures
        end < len ==> end == (k + 1) * size,
        end == len ==> k + 1 == chunk_count(len, size),
        k + 1 <= chunk_count(len, size),
{
    let c = size as int;
    let n = len as int;
    assert(k + 1 <= (n + c - 1) / c) by (nonlinear_arith)
        requires
            c > 0,
            0 <= k,
            k * c < n,
    {
        assert((k + 1) * c <= n + c - 1);
        assert(((k + 1) * c) / c == k + 1);
    }
    if end == n {
        assert((n + c - 1) / c <= k + 1) by (nonlinear_arith)
            requires
                c > 0,
                0 <= k,
                n <= (k + 1) * c,
        {
            assert(n + c - 1 < (k + 2) * c);
        }
    }
}

/// Cutting samples into chunks and joining the chunks gives the samples
/// back: what is pushed into an empty queue is what a drain returns.
pub proof fn law_chunks_join_to_input(samples: Seq<i16>, size: nat)
    requires
        size > 0,
    ensures
        flattened(chunks_of(samples, size)) == samples,
    decreases samples.len(),
{
    let chunks = chunks_of(samples, size);
    let n = samples.len() as int;
    let c = size as int;
    if n == 0 {
        lemma_no_samples_no_chunks(size);
        assert(flattened(chunks) =~= samples);
    } else {
        let head = if c <= n {
            c
        } else {
            n
        };
        let rest = samples.skip(head);
        assert(1 * c == c) by (nonlinear_arith);
        assert(0 * c == 0) by (nonlinear_arith);
        lemma_chunk_count_step(samples.len(), size);
        assert(chunks[0] =~= samples.take(head));
        assert(chunks.drop_first() =~= chunks_of(rest, size)) by {
            assert(chunks.drop_first().len() == chunks_of(rest, size).len());
            assert forall|k: int| 0 <= k < chunks.len() - 1 implies chunks.drop_first()[k]
                == chunks_of(rest, size)[k] by {
                assert((k + 1) * c == k * c + c) by (nonlinear_arith);
                assert((k + 2) * c == (k + 1) * c + c) by (nonlinear_arith);
                assert(k * c >= 0) by (nonlinear_arith)
                    requires
                        k >= 0,
                        c > 0,
                ;
                if c <= n {
                    let m = n - c;
                    assert(k * c < m) by (nonlinear_arith)
                        requires
                            c > 0,
                            m >= 0,
                            0 <= k < (m + c - 1) / c,
                    {
                        assert((k + 1) * c <= ((m + c - 1) / c) * c);
                        assert(((m + c - 1) / c) * c <= m + c - 1);
                    }
                    assert(chunk_at(samples, size, k + 1) =~= chunk_at(rest, size, k));
                }
            }
        }
        law_chunks_join_to_input(rest, size);
        assert(samples.take(head) + rest =~= samples);
    }
}

/// Samples that fill at least one chunk fill one chunk more than what
/// follows the first; fewer samples, if any, fill exactly one.
proof fn lemma_chunk_count_step(len: nat, size: nat)
    requires
        size > 0,
        len > 0,
    ensures
        len >= size ==> chunk_count(len, size) == chunk_count((len - size) as nat, size) + 1,
        len < size ==> chunk_count(len, size) == 1,
        len < size ==> chunk_count(0, size) == 0,
{
    let n = len as int;
    let c = size as int;
    if n >= c {
        assert((n + c - 1) / c == (n - c + c - 1) / c + 1) by (nonlinear_arith)
            requires
                c > 0,
                n >= c,
        {
            let q = (n - 1) / c;
            assert(q * c <= n - 1 < (q + 1) * c);
            assert((q + 1) * c <= n + c - 1 < (q + 2) * c);
        }
    } else {
        assert((n + c - 1) / c == 1) by (nonlinear_arith)
            requires
                c > 0,
                0 < n < c,
        ;
        assert((0 + c - 1) / c == 0) by (nonlinear_arith)
            requires
                c > 0,
        ;
    }
}

} // verus!
