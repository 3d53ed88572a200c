//! The batching engine.
//!
//! Entity-fetch operations submit at most a fixed number of ids per protocol
//! exchange, following server guidance. A large id collection is split into
//! chunks, one exchange is issued per chunk, and the per-chunk results are
//! flattened back into one collection: as many exchanges as chunks, nothing
//! dropped, nothing duplicated, submission order kept.

use vstd::prelude::*;

verus! {

/// The most ids one entity-fetch exchange may carry.
pub const BATCH_CHUNK_SIZE: usize = 10;

/// How many chunks a collection of `n` ids fills at `size` ids per chunk:
/// the quotient, rounded up.
pub open spec fn spec_chunk_count(n: int, size: int) -> int {
    (n + size - 1) / size
}

/// The contents of a list of chunks, laid end to end.
pub open spec fn spec_flatten_chunks(chunks: Seq<Vec<String>>) -> Seq<String> {
    chunks.map_values(|c: Vec<String>| c@).flatten()
}

/// Splits ids into chunks of at most `chunk_size`, in submission order.
///
/// Exactly `ceil(ids.len() / chunk_size)` chunks come back; laid end to end
/// they are the input, so one dispatch per chunk covers every id exactly
/// once. Every chunk is non-empty, and only the last may be short.
pub fn chunk_ids(ids: Vec<String>, chunk_size: usize) -> (chunks: Vec<Vec<String>>)
    requires
        chunk_size >= 1,
    ensures
        chunks@.len() == spec_chunk_count(ids@.len() as int, chunk_size as int),
        spec_flatten_chunks(chunks@) == ids@,
        forall|i: int|
            0 <= i < chunks@.len() ==> 1 <= #[trigger] chunks@[i]@.len() <= chunk_size,
        forall|i: int| 0 <= i < chunks@.len() - 1 ==> #[trigger] chunks@[i]@.len() == chunk_size,
{
    let len = ids.len();
    let mut chunks: Vec<Vec<String>> = Vec::new();
    let mut start: usize = 0;
    proof {
        assert(chunks@.len() * chunk_size == 0) by (nonlinear_arith)
            requires
                chunks@.len() == 0,
        {
        }
    }
    while start < len
        invariant
            len == ids@.len(),
            start <= len,
            start == chunks@.len() * chunk_size || (start == len && chunks@.len() >= 1
                && (chunks@.len() - 1) * chunk_size < len <= chunks@.len() * chunk_size),
            chunk_size >= 1,
            spec_flatten_chunks(chunks@) =~= ids@.take(start as int),
            forall|i: int|
                0 <= i < chunks@.len() ==> 1 <= #[trigger] chunks@[i]@.len() <= chunk_size,
            forall|i: int|
                0 <= i < chunks@.len() - 1 ==> #[trigger] chunks@[i]@.len() == chunk_size,
            start < len ==> start == chunks@.len() * chunk_size,
            start < len ==> (forall|i: int|
                0 <= i < chunks@.len() ==> #[trigger] chunks@[i]@.len() == chunk_size),
        decreases len - start,
    {
        let end = if len - start < chunk_size {
            len
        } else {
            start + chunk_size
        };
        let mut chunk: Vec<String> = Vec::new();
        let mut i = start;
        while i < end
            invariant
                start <= i <= end <= len,
                len == ids@.len(),
                chunk@ =~= ids@.subrange(start as int, i as int),
            decreases end - i,
        {
            chunk.push(ids[i].clone());
            proof {
                assert(chunk@ =~= ids@.subrange(start as int, i + 1));
            }
            i = i + 1;
        }
        let ghost prev = chunks@;
        chunks.push(chunk);
        proof {
            let mapped = prev.map_values(|c: Vec<String>| c@);
            assert(chunks@.map_values(|c: Vec<String>| c@) =~= mapped.push(chunk@));
            mapped.lemma_flatten_push(chunk@);
            assert(ids@.take(start as int) + ids@.subrange(start as int, end as int) =~= ids@.take(
                end as int,
            ));
            let c = prev.len() as int;
            assert((c + 1) * chunk_size == c * chunk_size + chunk_size) by (nonlinear_arith);
        }
        start = end;
    }
    proof {
        assert(ids@.take(len as int) =~= ids@);
        if len == 0 {
            assert(chunks@.len() == 0);
            assert(spec_chunk_count(0, chunk_size as int) == 0) by (nonlinear_arith)
                requires
                    chunk_size >= 1,
            {
            }
        } else {
            lemma_chunk_count_exact(len as int, chunk_size as int, chunks@.len() as int);
        }
    }
    chunks
}

/// A count of full-or-partial chunks that covers `n` exactly is the rounded-up
/// quotient.
proof fn lemma_chunk_count_exact(n: int, size: int, count: int)
    requires
        size >= 1,
        n >= 1,
        (count - 1) * size < n <= count * size || n == count * size,
    ensures
        count == spec_chunk_count(n, size),
{
    assert((count - 1) * size < n <= count * size) by (nonlinear_arith)
        requires
            size >= 1,
            n >= 1,
            (count - 1) * size < n <= count * size || n == count * size,
    {
    }
    assert((n + size - 1) / size == count) by (nonlinear_arith)
        requires
            size >= 1,
            (count - 1) * size < n <= count * size,
    {
    }
}

/// Lays per-chunk result collections end to end, in chunk order.
pub fn concat_all<T>(parts: Vec<Vec<T>>) -> (r: Vec<T>)
    ensures
        r@ == parts@.map_values(|p: Vec<T>| p@).flatten(),
{
    let mut r: Vec<T> = Vec::new();
    let mut parts = parts;
    let ghost full = parts@;
    let mut taken: usize = 0;
    let total = parts.len();
    proof {
        assert(full.take(0).map_values(|p: Vec<T>| p@) =~= Seq::<Seq<T>>::empty());
        assert(Seq::<Seq<T>>::empty().flatten() =~= Seq::<T>::empty());
    }
    while taken < total
        invariant
            full.len() == total,
            taken <= total,
            parts@ == full.skip(taken as int),
            r@ == full.take(taken as int).map_values(|p: Vec<T>| p@).flatten(),
        decreases total - taken,
    {
        let mut part = parts.remove(0);
        proof {
            assert(part == full[taken as int]);
            assert(full.skip(taken as int).drop_first() =~= full.skip(taken as int + 1));
        }
        let ghost r_before = r@;
        r.append(&mut part);
        proof {
            let mapped = full.take(taken as int).map_values(|p: Vec<T>| p@);
            mapped.lemma_flatten_push(full[taken as int]@);
            assert(full.take(taken as int + 1).map_values(|p: Vec<T>| p@) =~= mapped.push(
                full[taken as int]@,
            ));
            assert(r@ =~= r_before + full[taken as int]@);
        }
        taken = taken + 1;
    }
    proof {
        assert(full.take(total as int) =~= full);
    }
    r
}

} // verus!
