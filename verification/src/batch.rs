//! Chunked batch writes: a row sequence is cut into consecutive chunks of a
//! fixed size, which the caller flushes to the sink one by one, in order.
//!
//! A chunk whose write fails is not tried again and no chunk is written
//! after it: the failure ends the batch, and what was written stays.

use vstd::prelude::*;

verus! {

/// The chunk size in force: a configured size of zero degenerates to one row
/// per write, like a size of one.
pub open spec fn effective_size(chunk_size: nat) -> nat {
    if chunk_size == 0 {
        1
    } else {
        chunk_size
    }
}

/// How many chunks a sequence of `len` rows is cut into: `len / size`,
/// rounded up.
pub open spec fn chunk_count(len: nat, chunk_size: nat) -> nat {
    ((len + effective_size(chunk_size) - 1) / (effective_size(chunk_size) as int)) as nat
}

/// Index of the first row of chunk `k`.
pub open spec fn chunk_start(len: nat, chunk_size: nat, k: int) -> int {
    if k * effective_size(chunk_size) <= len {
        k * effective_size(chunk_size)
    } else {
        len as int
    }
}

/// The rows of chunk `k`.
pub open spec fn chunk_at<T>(rows: Seq<T>, chunk_size: nat, k: int) -> Seq<T> {
    rows.subrange(
        chunk_start(rows.len(), chunk_size, k),
        chunk_start(rows.len(), chunk_size, k + 1),
    )
}

/// All chunks of `rows`, in write order.
pub open spec fn chunks_of<T>(rows: Seq<T>, chunk_size: nat) -> Seq<Seq<T>> {
    Seq::new(chunk_count(rows.len(), chunk_size), |k: int| chunk_at(rows, chunk_size, k))
}

proof fn lemma_count_unique(len: nat, c: nat, k: nat)
    by (nonlinear_arith)
    requires
        c > 0,
        k * c >= len,
        k > 0 ==> (k - 1) * c < len,
    ensures
        k == ((len + c - 1) / (c as int)),
{
}

proof fn lemma_count_bounds(len: nat, c: nat)
    by (nonlinear_arith)
    requires
        c > 0,
    ensures
        ((len + c - 1) / (c as int)) * c >= len,
        ((len + c - 1) / (c as int)) >= 0,
        len > 0 ==> (((len + c - 1) / (c as int)) - 1) * c < len,
        len == 0 ==> ((len + c - 1) / (c as int)) == 0,
{
}

proof fn lemma_start_step(len: nat, chunk_size: nat, k: int)
    requires
        0 <= k < chunk_count(len, chunk_size),
    ensures
        chunk_start(len, chunk_size, k) == k * effective_size(chunk_size),
        chunk_start(len, chunk_size, k) < chunk_start(len, chunk_size, k + 1) <= len,
        chunk_start(len, chunk_size, k + 1) - chunk_start(len, chunk_size, k) <= effective_size(
            chunk_size,
        ),
        k + 1 < chunk_count(len, chunk_size) ==> chunk_start(len, chunk_size, k + 1)
            - chunk_start(len, chunk_size, k) == effective_size(chunk_size),
        k + 1 == chunk_count(len, chunk_size) ==> chunk_start(len, chunk_size, k + 1) == len,
{
    let c = effective_size(chunk_size);
    let n = chunk_count(len, chunk_size);
    lemma_count_bounds(len, c);
    assert(k * c <= (n - 1) * c) by (nonlinear_arith)
        requires
            0 <= k <= n - 1,
            c > 0,
    ;
    assert((k + 1) * c == k * c + c) by (nonlinear_arith);
    if k + 1 < n {
        assert((k + 1) * c <= (n - 1) * c) by (nonlinear_arith)
            requires
                0 <= k + 1 <= n - 1,
                c > 0,
        ;
    } else {
        assert((k + 1) * c == n * c);
    }
}

proof fn lemma_prefix_rebuild<T>(rows: Seq<T>, chunk_size: nat, j: int)
    requires
        0 <= j <= chunk_count(rows.len(), chunk_size),
    ensures
        chunks_of(rows, chunk_size).take(j).flatten() == rows.take(
            chunk_start(rows.len(), chunk_size, j),
        ),
        0 <= chunk_start(rows.len(), chunk_size, j) <= rows.len(),
    decreases j,
{
    let all = chunks_of(rows, chunk_size);
    if j == 0 {
        assert(0 * effective_size(chunk_size) == 0) by (nonlinear_arith);
        assert(all.take(0) =~= Seq::<Seq<T>>::empty());
        assert(rows.take(0) =~= Seq::<T>::empty());
    } else {
        lemma_prefix_rebuild(rows, chunk_size, j - 1);
        lemma_start_step(rows.len(), chunk_size, j - 1);
        let a = chunk_start(rows.len(), chunk_size, j - 1);
        let b = chunk_start(rows.len(), chunk_size, j);
        assert(all.take(j) =~= all.take(j - 1).push(all[j - 1]));
        all.take(j - 1).lemma_flatten_push(all[j - 1]);
        assert(rows.take(a) + rows.subrange(a, b) =~= rows.take(b));
    }
}

/// Chunking loses nothing and reorders nothing: the chunks, concatenated in
/// write order, are the row sequence itself. No chunk is empty, none holds
/// more rows than the size in force, and every chunk but the last is full.
pub proof fn lemma_chunks_rebuild<T>(rows: Seq<T>, chunk_size: nat)
    ensures
        chunks_of(rows, chunk_size).flatten() == rows,
        chunks_of(rows, chunk_size).len() == chunk_count(rows.len(), chunk_size),
        forall|k: int|
            0 <= k < chunk_count(rows.len(), chunk_size) ==> 1 <= (#[trigger] chunks_of(
                rows,
                chunk_size,
            )[k]).len() <= effective_size(chunk_size),
        forall|k: int|
            0 <= k < chunk_count(rows.len(), chunk_size) - 1 ==> (#[trigger] chunks_of(
                rows,
                chunk_size,
            )[k]).len() == effective_size(chunk_size),
{
    let all = chunks_of(rows, chunk_size);
    let n = chunk_count(rows.len(), chunk_size);
    lemma_prefix_rebuild(rows, chunk_size, n as int);
    lemma_count_bounds(rows.len(), effective_size(chunk_size));
    assert(all.take(n as int) =~= all);
    if n > 0 {
        lemma_start_step(rows.len(), chunk_size, n - 1);
    }
    assert(rows.take(rows.len() as int) =~= rows);
    assert forall|k: int| 0 <= k < n implies 1 <= (#[trigger] all[k]).len() <= effective_size(
        chunk_size,
    ) by {
        lemma_start_step(rows.len(), chunk_size, k);
    }
    assert forall|k: int| 0 <= k < n - 1 implies (#[trigger] all[k]).len() == effective_size(
        chunk_size,
    ) by {
        lemma_start_step(rows.len(), chunk_size, k);
    }
}

/// The number of chunks is the least `n` with `n * size >= len`: the row
/// count divided by the size in force, rounded up.
pub proof fn lemma_chunk_count_is_ceiling(len: nat, chunk_size: nat)
    ensures
        chunk_count(len, chunk_size) * effective_size(chunk_size) >= len,
        len > 0 ==> (chunk_count(len, chunk_size) - 1) * effective_size(chunk_size) < len,
        len == 0 ==> chunk_count(len, chunk_size) == 0,
{
    lemma_count_bounds(len, effective_size(chunk_size));
}

/// Cuts `rows` into chunks of at most `chunk_size` rows, in sequence order.
/// A `chunk_size` of zero is served like a size of one.
///
/// The chunks are as many as the row count divided by the size, rounded up;
/// none is empty or longer than the size; concatenated in order they are
/// `rows`.
pub fn split_chunks<'a, T>(rows: &'a [T], chunk_size: usize) -> (chunks: Vec<&'a [T]>)
    ensures
        chunks@.map_values(|piece: &[T]| piece@) == chunks_of(rows@, chunk_size as nat),
        chunks@.len() == chunk_count(rows@.len(), chunk_size as nat),
        chunks@.map_values(|piece: &[T]| piece@).flatten() == rows@,
        forall|k: int|
            0 <= k < chunks@.len() ==> (#[trigger] chunks@[k])@ == chunk_at(
                rows@,
                chunk_size as nat,
                k,
            ),
        forall|k: int|
            0 <= k < chunks@.len() ==> 1 <= (#[trigger] chunks@[k])@.len() <= effective_size(
                chunk_size as nat,
            ),
{
    let size: usize = if chunk_size == 0 {
        1
    } else {
        chunk_size
    };
    let len: usize = rows.len();
    let mut chunks: Vec<&'a [T]> = Vec::new();
    let mut start: usize = 0;
    proof {
        assert(0 * effective_size(chunk_size as nat) == 0) by (nonlinear_arith);
    }
    while start < len
        invariant
            size == effective_size(chunk_size as nat),
            size > 0,
            len == rows@.len(),
            start <= len,
            start == chunk_start(len as nat, chunk_size as nat, chunks@.len() as int),
            chunks@.len() > 0 ==> (chunks@.len() - 1) * size < len,
            forall|k: int|
                0 <= k < chunks@.len() ==> (#[trigger] chunks@[k])@ == chunk_at(
                    rows@,
                    chunk_size as nat,
                    k,
                ),
        decreases len - start,
    {
        let end: usize = if len - start < size {
            len
        } else {
            start + size
        };
        let ghost k = chunks@.len() as int;
        proof {
            assert(k * size == start) by (nonlinear_arith)
                requires
                    start < len,
                    start == (if k * size <= len {
                        k * size
                    } else {
                        len as int
                    }),
            ;
            assert((k + 1) * size == start + size) by (nonlinear_arith)
                requires
                    k * size == start,
            ;
        }
        let piece: &'a [T] = vstd::slice::slice_subrange(rows, start, end);
        chunks.push(piece);
        start = end;
    }
    proof {
        let k = chunks@.len();
        if k > 0 {
            assert(k * size >= len) by (nonlinear_arith)
                requires
                    start == len,
                    start == (if k * size <= len {
                        k * size
                    } else {
                        len as int
                    }),
            ;
        }
        lemma_count_unique(len as nat, size as nat, k);
        assert(chunks@.map_values(|piece: &[T]| piece@) =~= chunks_of(rows@, chunk_size as nat));
        lemma_chunks_rebuild(rows@, chunk_size as nat);
        assert forall|k: int| 0 <= k < chunks@.len() implies 1 <= (#[trigger] chunks@[k])@.len()
            <= effective_size(chunk_size as nat) by {
            assert(chunks@[k]@ == chunks_of(rows@, chunk_size as nat)[k]);
        }
    }
    chunks
}

/// The progress of the writes of one batch: how many of its chunks were
/// written, and whether a write has failed.
pub struct BatchWrite {
    total: usize,
    written: usize,
    failed: bool,
}

pub struct BatchWriteView {
    pub total: nat,
    pub written: nat,
    pub failed: bool,
}

/// The writes of a batch of `total` chunks before the first.
pub open spec fn write_start(total: nat) -> BatchWriteView {
    BatchWriteView { total, written: 0, failed: false }
}

/// Whether nothing is left to write: every chunk is written, or a write has
/// failed.
pub open spec fn write_over(write: BatchWriteView) -> bool {
    write.failed || write.written >= write.total
}

/// The writes after the next chunk was written, or failed to be. Writes
/// that are over stay as they are.
pub open spec fn write_step(before: BatchWriteView, succeeded: bool) -> BatchWriteView {
    if write_over(before) {
        before
    } else if succeeded {
        BatchWriteView { written: before.written + 1, ..before }
    } else {
        BatchWriteView { failed: true, ..before }
    }
}

impl View for BatchWrite {
    type V = BatchWriteView;

    closed spec fn view(&self) -> BatchWriteView {
        BatchWriteView {
            total: self.total as nat,
            written: self.written as nat,
            failed: self.failed,
        }
    }
}

impl BatchWrite {
    #[verifier::type_invariant]
    spec fn written_in_bounds(self) -> bool {
        self.written <= self.total
    }

    /// The writes of a batch of `total` chunks.
    pub fn new(total: usize) -> (write: BatchWrite)
        ensures
            write@ == write_start(total as nat),
    {
        BatchWrite { total, written: 0, failed: false }
    }

    /// The index of the chunk to write next; `None` once every chunk is
    /// written or a write has failed.
    pub fn next_chunk(&self) -> (index: Option<usize>)
        ensures
            index == if write_over(self@) {
                None
            } else {
                Some(self@.written as usize)
            },
    {
        proof {
            use_type_invariant(self);
        }
        if self.failed || self.written >= self.total {
            None
        } else {
            Some(self.written)
        }
    }

    /// Takes note of how the write of the next chunk went, and says whether
    /// the batch goes on.
    pub fn record(&mut self, succeeded: bool) -> (goes_on: bool)
        ensures
            final(self)@ == write_step(old(self)@, succeeded),
            goes_on == !write_over(final(self)@),
    {
        proof {
            use_type_invariant(&*self);
        }
        if !self.failed && self.written < self.total {
            if succeeded {
                self.written = self.written + 1;
            } else {
                self.failed = true;
            }
        }
        !self.failed && self.written < self.total
    }

    /// How many chunks were written.
    pub fn written(&self) -> (written: usize)
        ensures
            written == self@.written,
    {
        self.written
    }

    /// Whether a write has failed.
    pub fn has_failed(&self) -> (failed: bool)
        ensures
            failed == self@.failed,
    {
        self.failed
    }
}

/// The writes of a batch of `total` chunks after the first `count`
/// attempts, attempt `i` with the outcome `outcomes[i]`.
pub open spec fn write_after(total: nat, outcomes: Seq<bool>, count: int) -> BatchWriteView
    decreases count,
{
    if count <= 0 {
        write_start(total)
    } else {
        write_step(write_after(total, outcomes, count - 1), outcomes[count - 1])
    }
}

/// How many of the first `count` outcomes lie before the first failure.
pub open spec fn successes_before_failure(outcomes: Seq<bool>, count: int) -> nat
    decreases count,
{
    if count <= 0 {
        0
    } else if successes_before_failure(outcomes, count - 1) == count - 1 && outcomes[count - 1] {
        count as nat
    } else {
        successes_before_failure(outcomes, count - 1)
    }
}

/// No chunk is written twice and none after a failure: the chunks that were
/// written are those before the first failed write, at most all of them,
/// and the batch has failed exactly where one of the attempts on them did.
pub proof fn lemma_no_write_after_failure(total: nat, outcomes: Seq<bool>, count: int)
    requires
        0 <= count <= outcomes.len(),
    ensures
        write_after(total, outcomes, count).total == total,
        successes_before_failure(outcomes, count) <= count,
        write_after(total, outcomes, count).written == if successes_before_failure(
            outcomes,
            count,
        ) <= total {
            successes_before_failure(outcomes, count)
        } else {
            total
        },
        write_after(total, outcomes, count).failed <==> successes_before_failure(outcomes, count)
            < count && successes_before_failure(outcomes, count) < total,
    decreases count,
{
    if count > 0 {
        lemma_no_write_after_failure(total, outcomes, count - 1);
    }
}

} // verus!
