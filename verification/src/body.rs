use vstd::prelude::*;
use crate::errors::JsonPayloadError;

verus! {

/// Total size of a sequence of chunks.
pub open spec fn spec_chunks_total(chunks: Seq<Seq<u8>>) -> int
    decreases chunks.len(),
{
    if chunks.len() == 0 {
        0
    } else {
        chunks[0].len() + spec_chunks_total(chunks.drop_first())
    }
}

/// Concatenation of a sequence of chunks.
pub open spec fn spec_flatten(chunks: Seq<Seq<u8>>) -> Seq<u8>
    decreases chunks.len(),
{
    if chunks.len() == 0 {
        Seq::empty()
    } else {
        chunks[0] + spec_flatten(chunks.drop_first())
    }
}

/// The outcome of accumulating `chunks` onto `acc` under `limit`: the full
/// concatenation, unless some chunk would push the running total past the
/// limit, in which case accumulation stops right there with an overflow.
pub open spec fn spec_read(limit: usize, acc: Seq<u8>, chunks: Seq<Seq<u8>>) -> Result<
    Seq<u8>,
    JsonPayloadError,
>
    decreases chunks.len(),
{
    if chunks.len() == 0 {
        Ok(acc)
    } else if acc.len() + chunks[0].len() > limit {
        Err(JsonPayloadError::Overflow { limit })
    } else {
        spec_read(limit, acc + chunks[0], chunks.drop_first())
    }
}

/// The outcome of a whole read: a declared length over the limit is rejected
/// up front, before any chunk is consumed; otherwise the chunks accumulate
/// from an empty buffer.
pub open spec fn spec_read_outcome(
    limit: usize,
    declared_length: Option<usize>,
    chunks: Seq<Seq<u8>>,
) -> Result<Seq<u8>, JsonPayloadError> {
    if declared_length matches Some(l) && l > limit {
        Err(
            JsonPayloadError::OverflowKnownLength {
                length: declared_length->Some_0,
                limit,
            },
        )
    } else {
        spec_read(limit, Seq::empty(), chunks)
    }
}

/// The view of a vector of chunk buffers.
pub open spec fn spec_chunk_views(chunks: Seq<Vec<u8>>) -> Seq<Seq<u8>> {
    chunks.map_values(|c: Vec<u8>| c@)
}

/// Per-request reader state: it either failed (up front or mid-stream, the
/// buffer discarded) or is accumulating chunks into a buffer that never
/// holds more than `limit` bytes.
pub enum BodyReader {
    Failed { error: JsonPayloadError },
    Accumulating { buf: Vec<u8>, limit: usize, declared_length: Option<usize> },
}

impl BodyReader {
    /// The buffer never exceeds the limit at any observable point, and a
    /// declared length still carried by a live reader is within the limit.
    pub open spec fn wf(self) -> bool {
        self matches BodyReader::Accumulating { buf, limit, declared_length } ==> {
            &&& buf@.len() <= limit
            &&& declared_length matches Some(l) ==> l <= limit
        }
    }

    /// Starts a read. A declared length over the limit fails immediately,
    /// without any of the stream being consumed.
    pub fn new(limit: usize, declared_length: Option<usize>) -> (r: BodyReader)
        ensures
            r.wf(),
            match declared_length {
                Some(l) => if l > limit {
                    r == (BodyReader::Failed {
                        error: JsonPayloadError::OverflowKnownLength { length: l, limit },
                    })
                } else {
                    r matches BodyReader::Accumulating { buf, limit: lim, declared_length: d }
                        && buf@ == Seq::<u8>::empty() && lim == limit && d == Some(l)
                },
                None => r matches BodyReader::Accumulating { buf, limit: lim, declared_length: d }
                    && buf@ == Seq::<u8>::empty() && lim == limit && d is None,
            },
    {
        if let Some(l) = declared_length {
            if l > limit {
                return BodyReader::Failed {
                    error: JsonPayloadError::OverflowKnownLength { length: l, limit },
                };
            }
        }
        BodyReader::Accumulating { buf: Vec::new(), limit, declared_length }
    }

    pub fn is_failed(&self) -> (r: bool)
        ensures
            r == (self is Failed),
    {
        match self {
            BodyReader::Failed { .. } => true,
            BodyReader::Accumulating { .. } => false,
        }
    }

    /// The bytes accumulated so far, for diagnostics; a failed reader has
    /// discarded its buffer and holds none.
    pub fn buffered(&self) -> (r: Option<&Vec<u8>>)
        ensures
            *self matches BodyReader::Accumulating { buf, .. } ==> (r matches Some(b) && b@
                == buf@),
            self is Failed ==> r is None,
    {
        match self {
            BodyReader::Accumulating { buf, .. } => Some(buf),
            BodyReader::Failed { .. } => None,
        }
    }

    /// Whether committing a chunk of the given size would push the buffer
    /// past the limit.
    pub fn would_overflow(&self, chunk_len: usize) -> (r: bool)
        ensures
            *self matches BodyReader::Accumulating { buf, limit, .. } ==> r == (buf@.len()
                + chunk_len > limit),
            self is Failed ==> r,
    {
        match self {
            BodyReader::Accumulating { buf, limit, .. } => (buf.len() as u128) + (chunk_len
                as u128) > (*limit as u128),
            BodyReader::Failed { .. } => true,
        }
    }

    /// Commits one chunk. A chunk that would push the buffer past the limit
    /// is discarded, the buffer with it, and the reader fails; otherwise the
    /// chunk is appended.
    pub fn push_chunk(&mut self, chunk: &[u8]) -> (r: Result<(), JsonPayloadError>)
        requires
            old(self).wf(),
            *old(self) is Accumulating,
        ensures
            final(self).wf(),
            *old(self) matches BodyReader::Accumulating { buf: buf0, limit, declared_length } ==> {
                if buf0@.len() + chunk@.len() <= limit {
                    &&& r is Ok
                    &&& *final(self) matches BodyReader::Accumulating {
                        buf,
                        limit: lim,
                        declared_length: d,
                    } && buf@ == buf0@ + chunk@ && lim == limit && d == declared_length
                } else {
                    &&& r == Err::<(), JsonPayloadError>(JsonPayloadError::Overflow { limit })
                    &&& *final(self) == (BodyReader::Failed {
                        error: JsonPayloadError::Overflow { limit },
                    })
                }
            },
    {
        let lim: usize;
        match self {
            BodyReader::Accumulating { buf, limit, .. } => {
                if chunk.len() <= *limit - buf.len() {
                    buf.extend_from_slice(chunk);
                    return Ok(());
                }
                lim = *limit;
            },
            BodyReader::Failed { .. } => {
                proof {
                    assert(false);
                }
                lim = 0;
            },
        }
        *self = BodyReader::Failed { error: JsonPayloadError::Overflow { limit: lim } };
        Err(JsonPayloadError::Overflow { limit: lim })
    }

    /// Ends the read: the accumulated buffer is moved out, not copied; a
    /// failed reader hands out the failure it stored.
    pub fn finish(self) -> (r: Result<Vec<u8>, JsonPayloadError>)
        ensures
            self matches BodyReader::Accumulating { buf, .. } ==> r == Ok::<
                Vec<u8>,
                JsonPayloadError,
            >(buf),
            self matches BodyReader::Failed { error } ==> r == Err::<Vec<u8>, JsonPayloadError>(
                error,
            ),
    {
        match self {
            BodyReader::Accumulating { buf, .. } => Ok(buf),
            BodyReader::Failed { error } => Err(error),
        }
    }
}

/// Runs a whole read over an already-collected chunk list: the outcome is
/// exactly `spec_read_outcome` over the chunks' contents.
pub fn read_all(limit: usize, declared_length: Option<usize>, chunks: &Vec<Vec<u8>>) -> (r: Result<
    Vec<u8>,
    JsonPayloadError,
>)
    ensures
        match r {
            Ok(b) => spec_read_outcome(limit, declared_length, spec_chunk_views(chunks@)) == Ok::<
                Seq<u8>,
                JsonPayloadError,
            >(b@),
            Err(e) => spec_read_outcome(limit, declared_length, spec_chunk_views(chunks@)) == Err::<
                Seq<u8>,
                JsonPayloadError,
            >(e),
        },
{
    let ghost views = spec_chunk_views(chunks@);
    let mut reader = BodyReader::new(limit, declared_length);
    if reader.is_failed() {
        return reader.finish();
    }
    proof {
        assert(views.skip(0) =~= views);
    }
    let n = chunks.len();
    let mut i: usize = 0;
    while i < n
        invariant
            i <= n,
            n == chunks@.len(),
            views == spec_chunk_views(chunks@),
            declared_length matches Some(l) ==> l <= limit,
            reader.wf(),
            reader matches BodyReader::Accumulating { buf, limit: lim, .. } && lim == limit
                && spec_read(limit, buf@, views.skip(i as int)) == spec_read(
                limit,
                Seq::empty(),
                views,
            ),
        decreases n - i,
    {
        let ghost buf0 = reader->Accumulating_buf@;
        let res = reader.push_chunk(chunks[i].as_slice());
        proof {
            assert(views[i as int] == chunks@[i as int]@);
            assert(views.skip(i as int)[0] == views[i as int]);
            assert(views.skip(i as int).drop_first() =~= views.skip(i as int + 1));
        }
        match res {
            Ok(()) => {},
            Err(e) => {
                return Err(e);
            },
        }
        i = i + 1;
    }
    proof {
        assert(views.skip(n as int) =~= Seq::<Seq<u8>>::empty());
    }
    reader.finish()
}

/// Every chunk list has a total size of at least zero.
proof fn lemma_total_nonneg(chunks: Seq<Seq<u8>>)
    ensures
        spec_chunks_total(chunks) >= 0,
    decreases chunks.len(),
{
    if chunks.len() > 0 {
        lemma_total_nonneg(chunks.drop_first());
    }
}

proof fn lemma_read_complete_rec(limit: usize, acc: Seq<u8>, chunks: Seq<Seq<u8>>)
    requires
        acc.len() + spec_chunks_total(chunks) <= limit,
    ensures
        spec_read(limit, acc, chunks) == Ok::<Seq<u8>, JsonPayloadError>(acc + spec_flatten(chunks)),
    decreases chunks.len(),
{
    if chunks.len() == 0 {
        assert(acc + spec_flatten(chunks) =~= acc);
    } else {
        lemma_total_nonneg(chunks.drop_first());
        lemma_read_complete_rec(limit, acc + chunks[0], chunks.drop_first());
        assert((acc + chunks[0]) + spec_flatten(chunks.drop_first()) =~= acc + spec_flatten(chunks));
    }
}

proof fn lemma_read_overflow_rec(limit: usize, acc: Seq<u8>, chunks: Seq<Seq<u8>>)
    requires
        acc.len() + spec_chunks_total(chunks) > limit,
        acc.len() <= limit,
    ensures
        spec_read(limit, acc, chunks) == Err::<Seq<u8>, JsonPayloadError>(
            JsonPayloadError::Overflow { limit },
        ),
    decreases chunks.len(),
{
    if chunks.len() == 0 {
    } else if acc.len() + chunks[0].len() > limit {
    } else {
        lemma_read_overflow_rec(limit, acc + chunks[0], chunks.drop_first());
    }
}

/// Law: when the declared length (if any) is within the limit and the chunks'
/// total size fits the limit, the read returns exactly the concatenation of
/// the chunks.
pub proof fn lemma_read_outcome_complete(
    limit: usize,
    declared_length: Option<usize>,
    chunks: Seq<Seq<u8>>,
)
    requires
        spec_chunks_total(chunks) <= limit,
        declared_length matches Some(l) ==> l <= limit,
    ensures
        spec_read_outcome(limit, declared_length, chunks) == Ok::<Seq<u8>, JsonPayloadError>(
            spec_flatten(chunks),
        ),
{
    lemma_read_complete_rec(limit, Seq::empty(), chunks);
    assert(Seq::<u8>::empty() + spec_flatten(chunks) =~= spec_flatten(chunks));
}

/// Law: chunks whose total size crosses the limit, under a declared length
/// that is absent or within the limit, end the read with `Overflow` at the
/// first chunk that crosses; nothing past that point is accumulated.
pub proof fn lemma_read_outcome_overflow(
    limit: usize,
    declared_length: Option<usize>,
    chunks: Seq<Seq<u8>>,
)
    requires
        spec_chunks_total(chunks) > limit,
        declared_length matches Some(l) ==> l <= limit,
    ensures
        spec_read_outcome(limit, declared_length, chunks) == Err::<Seq<u8>, JsonPayloadError>(
            JsonPayloadError::Overflow { limit },
        ),
{
    lemma_read_overflow_rec(limit, Seq::empty(), chunks);
}

/// Law: a declared length over the limit is rejected as `OverflowKnownLength`
/// whatever the stream would have delivered; the outcome does not depend on
/// the chunks, which are never consumed.
pub proof fn lemma_known_length_rejected(
    limit: usize,
    length: usize,
    chunks_a: Seq<Seq<u8>>,
    chunks_b: Seq<Seq<u8>>,
)
    requires
        length > limit,
    ensures
        spec_read_outcome(limit, Some(length), chunks_a) == Err::<Seq<u8>, JsonPayloadError>(
            JsonPayloadError::OverflowKnownLength { length, limit },
        ),
        spec_read_outcome(limit, Some(length), chunks_a) == spec_read_outcome(
            limit,
            Some(length),
            chunks_b,
        ),
{
}

} // verus!
