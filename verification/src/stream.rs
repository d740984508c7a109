//! The cursor protocol of an unbounded fact stream.
//!
//! The facts of a board are asked for page by page. The cursor starts at
//! zero and moves on by the number of rows of each page; a page without rows
//! is the one signal that the board is exhausted. The caller fetches and
//! writes; the stream says where to ask next and when to stop.

use crate::batch::{chunks_of, lemma_chunks_rebuild};
use vstd::prelude::*;

verus! {

/// A stream of pages: the cursor of the next request, the number of the next
/// page, counted from one, and whether the empty page has been seen.
pub struct FactStream {
    cursor: i32,
    page: u64,
    finished: bool,
}

pub struct StreamView {
    pub cursor: int,
    pub page: nat,
    pub finished: bool,
}

/// What to do with a page that was fetched.
#[derive(Debug, Clone, Copy, PartialEq, Eq, Structural)]
pub enum PageVerdict {
    /// The page has rows: write them as page number `page`, then ask on.
    Deliver { page: u64 },
    /// The stream is exhausted: write nothing and ask no more.
    Stop,
}

/// A breach of the cursor protocol.
#[derive(Debug, Clone, Copy, PartialEq, Eq, Structural)]
pub enum StreamError {
    /// The page would move the cursor beyond what a request can name, so the
    /// cursor could not grow with it.
    CursorOverflow,
}

/// A stream before its first request, with the cursor at `cursor`.
pub open spec fn stream_start(cursor: int) -> StreamView {
    StreamView { cursor, page: 1, finished: false }
}

/// The stream after a page of `rows` rows: an empty page finishes it, any
/// other moves the cursor on by `rows`. A finished stream stays as it is.
pub open spec fn stream_step(before: StreamView, rows: nat) -> StreamView {
    if before.finished {
        before
    } else if rows == 0 {
        StreamView { finished: true, ..before }
    } else {
        StreamView { cursor: before.cursor + rows, page: before.page + 1, finished: false }
    }
}

impl View for FactStream {
    type V = StreamView;

    closed spec fn view(&self) -> StreamView {
        StreamView { cursor: self.cursor as int, page: self.page as nat, finished: self.finished }
    }
}

impl FactStream {
    #[verifier::type_invariant]
    spec fn page_follows_cursor(self) -> bool {
        1 <= self.page && self.page - 1 <= self.cursor - i32::MIN
    }

    /// A stream that starts at cursor zero.
    pub fn new() -> (stream: FactStream)
        ensures
            stream@ == stream_start(0),
    {
        FactStream { cursor: 0, page: 1, finished: false }
    }

    /// A stream that starts over at a given cursor.
    pub fn starting_at(cursor: i32) -> (stream: FactStream)
        ensures
            stream@ == stream_start(cursor as int),
    {
        FactStream { cursor, page: 1, finished: false }
    }

    /// The cursor of the next request.
    pub fn cursor(&self) -> (cursor: i32)
        ensures
            cursor == self@.cursor,
    {
        self.cursor
    }

    /// The number of the next page, counted from one.
    pub fn page_number(&self) -> (page: u64)
        ensures
            page == self@.page,
    {
        self.page
    }

    /// Whether the stream has seen its empty page.
    pub fn is_finished(&self) -> (finished: bool)
        ensures
            finished == self@.finished,
    {
        self.finished
    }

    /// Where to ask next: the cursor, or `None` once the stream is finished.
    pub fn next_start(&self) -> (start: Option<i32>)
        ensures
            start == if self@.finished {
                None
            } else {
                Some(self@.cursor as i32)
            },
    {
        if self.finished {
            None
        } else {
            Some(self.cursor)
        }
    }

    /// Takes note of the page fetched at the cursor, by its number of rows.
    ///
    /// An empty page, and any page handed to a finished stream, gives `Stop`.
    /// A page with rows gives `Deliver` with its page number, and the cursor
    /// grows by `rows`. Where the cursor cannot grow by `rows` the stream is
    /// finished with `CursorOverflow`: it never asks twice at one cursor.
    pub fn advance(&mut self, rows: usize) -> (verdict: Result<PageVerdict, StreamError>)
        ensures
            verdict == if old(self)@.finished || rows == 0 {
                Ok::<PageVerdict, StreamError>(PageVerdict::Stop)
            } else if old(self)@.cursor + rows > i32::MAX {
                Err::<PageVerdict, StreamError>(StreamError::CursorOverflow)
            } else {
                Ok::<PageVerdict, StreamError>(
                    PageVerdict::Deliver { page: old(self)@.page as u64 },
                )
            },
            final(self)@ == if verdict is Err {
                StreamView { finished: true, ..old(self)@ }
            } else {
                stream_step(old(self)@, rows as nat)
            },
    {
        proof {
            use_type_invariant(&*self);
        }
        if self.finished {
            return Ok(PageVerdict::Stop);
        }
        if rows == 0 {
            self.finished = true;
            return Ok(PageVerdict::Stop);
        }
        let room: i64 = 2147483647 - (self.cursor as i64);
        if rows > 4294967295 || (rows as i64) > room {
            self.finished = true;
            return Err(StreamError::CursorOverflow);
        }
        let page: u64 = self.page;
        self.cursor = ((self.cursor as i64) + (rows as i64)) as i32;
        self.page = page + 1;
        Ok(PageVerdict::Deliver { page })
    }
}

/// The number of rows in the first `count` pages.
pub open spec fn rows_before<T>(pages: Seq<Seq<T>>, count: int) -> int
    decreases count,
{
    if count <= 0 {
        0
    } else {
        rows_before(pages, count - 1) + pages[count - 1].len()
    }
}

/// `pages` are the answers of a paginated source that holds `source`, asked
/// at the cursors that a stream from zero visits: each page holds the rows
/// that follow its cursor, and is empty only once the cursor is at the end.
pub open spec fn served_from<T>(source: Seq<T>, pages: Seq<Seq<T>>) -> bool {
    forall|k: int|
        0 <= k < pages.len() ==> {
            let at = rows_before(pages, k);
            &&& at + (#[trigger] pages[k]).len() <= source.len()
            &&& pages[k] == source.subrange(at, at + pages[k].len())
            &&& (pages[k].len() == 0 <==> at == source.len())
        }
}

/// The stream from cursor zero after the first `count` pages.
pub open spec fn stream_after<T>(pages: Seq<Seq<T>>, count: int) -> StreamView
    decreases count,
{
    if count <= 0 {
        stream_start(0)
    } else {
        stream_step(stream_after(pages, count - 1), pages[count - 1].len())
    }
}

/// The rows that the stream from cursor zero has delivered after the first
/// `count` pages: those of every page that it took before it finished.
pub open spec fn delivered<T>(pages: Seq<Seq<T>>, count: int) -> Seq<T>
    decreases count,
{
    if count <= 0 {
        Seq::empty()
    } else if stream_after(pages, count - 1).finished {
        delivered(pages, count - 1)
    } else {
        delivered(pages, count - 1) + pages[count - 1]
    }
}

/// Paging loses nothing: a stream from cursor zero over the pages of a
/// source finishes exactly at the first empty page, holds until then the
/// rows of the source up to its cursor, and has by then delivered the whole
/// source, each row once and in order.
pub proof fn lemma_stream_delivers_source<T>(source: Seq<T>, pages: Seq<Seq<T>>, count: int)
    requires
        served_from(source, pages),
        0 <= count <= pages.len(),
    ensures
        stream_after(pages, count).finished <==> exists|k: int|
            0 <= k < count && (#[trigger] pages[k]).len() == 0,
        !stream_after(pages, count).finished ==> {
            &&& stream_after(pages, count).cursor == rows_before(pages, count)
            &&& stream_after(pages, count).page == count + 1
            &&& delivered(pages, count) == source.take(rows_before(pages, count))
        },
        stream_after(pages, count).finished ==> delivered(pages, count) == source,
        0 <= rows_before(pages, count) <= source.len(),
    decreases count,
{
    if count > 0 {
        lemma_stream_delivers_source(source, pages, count - 1);
        let before = stream_after(pages, count - 1);
        let page = pages[count - 1];
        let at = rows_before(pages, count - 1);
        assert(at + page.len() <= source.len());
        if before.finished {
            let k = choose|k: int| 0 <= k < count - 1 && (#[trigger] pages[k]).len() == 0;
            assert(0 <= k < count && pages[k].len() == 0);
        } else if page.len() == 0 {
            assert(0 <= count - 1 < count && pages[count - 1].len() == 0);
            assert(source.take(at) =~= source);
        } else {
            assert(source.take(at) + source.subrange(at, at + page.len()) =~= source.take(
                at + page.len(),
            ));
            assert forall|k: int| 0 <= k < count implies (#[trigger] pages[k]).len() != 0 by {
                if k < count - 1 {
                }
            }
        }
    }
}

/// The rows that have gone to the sink after the first `count` pages, where
/// each delivered page is written in chunks of `chunk_size` rows.
pub open spec fn written<T>(pages: Seq<Seq<T>>, chunk_size: nat, count: int) -> Seq<T>
    decreases count,
{
    if count <= 0 {
        Seq::empty()
    } else if stream_after(pages, count - 1).finished {
        written(pages, chunk_size, count - 1)
    } else {
        written(pages, chunk_size, count - 1) + chunks_of(pages[count - 1], chunk_size).flatten()
    }
}

/// Paging and chunking together lose nothing: what is written chunk by
/// chunk is what was delivered page by page, so a finished stream over the
/// pages of a source has written the source, each row once and in order,
/// whatever the chunk size.
pub proof fn lemma_chunked_stream_writes_source<T>(
    source: Seq<T>,
    pages: Seq<Seq<T>>,
    chunk_size: nat,
    count: int,
)
    requires
        served_from(source, pages),
        0 <= count <= pages.len(),
    ensures
        written(pages, chunk_size, count) == delivered(pages, count),
        stream_after(pages, count).finished ==> written(pages, chunk_size, count) == source,
    decreases count,
{
    lemma_stream_delivers_source(source, pages, count);
    if count > 0 {
        lemma_chunked_stream_writes_source(source, pages, chunk_size, count - 1);
        lemma_chunks_rebuild(pages[count - 1], chunk_size);
    }
}

} // verus!
