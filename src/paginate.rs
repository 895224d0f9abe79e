//! The paginated fetch engine: turns a query that is answered one page at a
//! time into one ordered sequence of records, within the service's cap.
//!
//! The engine makes no request itself. `poll_next` says what comes next: an
//! item, the end, or the offset of the page to fetch; the caller fetches
//! that page and hands the outcome to `deliver`.

use std::collections::VecDeque;

use vstd::prelude::*;

use crate::error::Error;
use crate::pagination::{capped_total, Page, PageCursor, Pagination};

verus! {

/// Where the engine stands.
#[derive(Clone, Copy, Debug, PartialEq, Eq, Structural)]
pub enum StreamState {
    /// More pages may follow.
    Active,
    /// The cap or the reported total was reached, or a page came back empty.
    Exhausted,
    /// A fetch failed; nothing more is fetched.
    Failed,
}

/// What `poll_next` hands back.
#[derive(Debug)]
pub enum Step<T> {
    /// The next record.
    Item(T),
    /// The page that starts at this offset is needed: fetch it and pass the
    /// outcome to `deliver`.
    Fetch(usize),
    /// The sequence has ended.
    End,
}

/// Which of the three steps an engine in a given state takes.
#[derive(Clone, Copy, Debug, PartialEq, Eq, Structural)]
pub enum StepKind {
    Item,
    Fetch,
    End,
}

/// The abstract state of an engine.
pub struct StreamView<T> {
    /// The offset of the next page to fetch.
    pub offset: int,
    /// The offset that the engine started at.
    pub start: int,
    /// The service's cap on results.
    pub limit: int,
    /// The descriptor of the last page received.
    pub pagination: Option<Pagination>,
    /// Records received and not yet handed out, in order.
    pub buffer: Seq<T>,
    pub state: StreamState,
    /// A fetch was asked for and its outcome not yet delivered.
    pub pending: bool,
    /// Every record received, page after page, in the order received.
    pub delivered: Seq<T>,
    /// Every record handed out, in the order handed out.
    pub yielded: Seq<T>,
}

impl<T> StreamView<T> {
    /// The records handed out and those waiting are exactly those received,
    /// in order; and the offset has moved past each of them.
    pub open spec fn consistent(self) -> bool {
        &&& self.delivered == self.yielded + self.buffer
        &&& self.offset == self.start + self.delivered.len()
        &&& 0 <= self.start
    }

    /// The offset past which no page is fetched: the cap, or the reported
    /// total where that is smaller.
    pub open spec fn effective_limit(self) -> int {
        match self.pagination {
            Some(p) => capped_total(self.limit as usize, p.total_count),
            None => self.limit,
        }
    }

    /// Which step comes next.
    pub open spec fn step_kind(self) -> StepKind {
        if self.buffer.len() > 0 {
            StepKind::Item
        } else if self.state != StreamState::Active || self.offset >= self.effective_limit() {
            StepKind::End
        } else {
            StepKind::Fetch
        }
    }

    /// The state after the sequence has been found to end.
    pub open spec fn ended(self) -> StreamView<T> {
        StreamView {
            state: if self.state == StreamState::Active {
                StreamState::Exhausted
            } else {
                self.state
            },
            ..self
        }
    }
}

/// A lazy sequence of the records of a paginated query.
pub struct PaginatedStream<T> {
    cursor: PageCursor,
    buffer: VecDeque<T>,
    state: StreamState,
    pending: bool,
    start: Ghost<int>,
    delivered: Ghost<Seq<T>>,
    yielded: Ghost<Seq<T>>,
}

impl<T> View for PaginatedStream<T> {
    type V = StreamView<T>;

    closed spec fn view(&self) -> StreamView<T> {
        StreamView {
            offset: self.cursor.offset as int,
            start: self.start@,
            limit: self.cursor.limit as int,
            pagination: self.cursor.pagination,
            buffer: self.buffer@,
            state: self.state,
            pending: self.pending,
            delivered: self.delivered@,
            yielded: self.yielded@,
        }
    }
}

impl<T> PaginatedStream<T> {
    /// The engine's invariant.
    pub closed spec fn wf(&self) -> bool {
        self@.consistent()
    }

    /// An engine for a query that starts at `index` (zero where none is
    /// given), handing out at most `limit` results counted from offset zero.
    pub fn new(index: Option<i32>, limit: usize) -> (r: Self)
        requires
            index matches Some(i) ==> i >= 0,
        ensures
            r.wf(),
            r@.offset == (match index {
                Some(i) => i as int,
                None => 0,
            }),
            r@.start == r@.offset,
            r@.limit == limit,
            r@.pagination is None,
            r@.buffer.len() == 0,
            r@.state == StreamState::Active,
            !r@.pending,
            r@.delivered.len() == 0,
            r@.yielded.len() == 0,
    {
        let cursor = PageCursor::new(index, limit);
        PaginatedStream {
            cursor,
            buffer: VecDeque::new(),
            state: StreamState::Active,
            pending: false,
            start: Ghost(cursor.offset as int),
            delivered: Ghost(Seq::empty()),
            yielded: Ghost(Seq::empty()),
        }
    }

    /// The cap on results.
    pub fn limit(&self) -> (r: usize)
        ensures
            r == self@.limit,
    {
        self.cursor.limit
    }

    /// The descriptor of the last page received.
    pub fn pagination(&self) -> (r: Option<Pagination>)
        ensures
            r == self@.pagination,
    {
        self.cursor.pagination
    }

    /// The offset of the next page.
    pub fn offset(&self) -> (r: usize)
        ensures
            r == self@.offset,
    {
        self.cursor.offset
    }

    /// Where the engine stands.
    pub fn state(&self) -> (r: StreamState)
        ensures
            r == self@.state,
    {
        self.state
    }

    /// Bounds on the number of results: the lower bound is zero; the upper
    /// bound is the cap, or the reported total where that is smaller, and is
    /// unknown until a page has been received.
    pub fn size_hint(&self) -> (r: (usize, Option<usize>))
        ensures
            r.0 == 0,
            r.1 matches Some(n) ==> self@.pagination is Some && n == self@.effective_limit(),
            r.1 is None <==> self@.pagination is None,
    {
        (0, self.cursor.total_items())
    }

    /// Takes the next step: hands out the first waiting record; else ends
    /// the sequence where it has failed, emptied, or reached the cap or the
    /// reported total; else asks for the page at the current offset.
    pub fn poll_next(&mut self) -> (r: Step<T>)
        requires
            old(self).wf(),
            !old(self)@.pending,
        ensures
            final(self).wf(),
            match r {
                Step::Item(_) => old(self)@.step_kind() == StepKind::Item,
                Step::Fetch(_) => old(self)@.step_kind() == StepKind::Fetch,
                Step::End => old(self)@.step_kind() == StepKind::End,
            },
            r matches Step::Item(x) ==> {
                &&& x == old(self)@.buffer[0]
                &&& final(self)@ == StreamView {
                    buffer: old(self)@.buffer.drop_first(),
                    yielded: old(self)@.yielded.push(x),
                    ..old(self)@
                }
            },
            r matches Step::Fetch(o) ==> {
                &&& o == old(self)@.offset
                &&& final(self)@ == StreamView { pending: true, ..old(self)@ }
            },
            r is End ==> final(self)@ == old(self)@.ended(),
    {
        if self.buffer.len() > 0 {
            let item = self.buffer.pop_front();
            match item {
                Some(x) => {
                    proof {
                        self.yielded@ = self.yielded@.push(x);
                        assert(self.buffer@ =~= old(self)@.buffer.drop_first());
                        assert(self.delivered@ =~= self.yielded@ + self.buffer@);
                    }
                    Step::Item(x)
                },
                None => Step::End,
            }
        } else if self.state != StreamState::Active {
            Step::End
        } else {
            let reached = match self.cursor.total_items() {
                Some(total) => self.cursor.offset >= total,
                None => self.cursor.offset >= self.cursor.limit,
            };
            if reached {
                self.state = StreamState::Exhausted;
                Step::End
            } else {
                self.pending = true;
                Step::Fetch(self.cursor.offset)
            }
        }
    }

    /// Whether a page agrees with the request for it: it starts at the
    /// offset asked for and holds as many records as it reports.
    pub open spec fn page_agrees(requested: int, page: Page<T>) -> bool {
        &&& page.pagination.index as int == requested
        &&& page.pagination.result_count as int == page.records@.len()
    }

    /// Takes the outcome of the fetch that `poll_next` asked for. A failed
    /// fetch, or a page that disagrees with the request, fails the engine
    /// and is handed back as the error. An agreeing page replaces the
    /// descriptor, moves the offset past its records and queues them; an
    /// empty one ends the sequence.
    pub fn deliver(&mut self, outcome: Result<Page<T>, Error>) -> (r: Result<(), Error>)
        requires
            old(self).wf(),
            old(self)@.pending,
        ensures
            final(self).wf(),
            !final(self)@.pending,
            match outcome {
                Err(e) => {
                    &&& r == Err::<(), Error>(e)
                    &&& final(self)@ == StreamView { state: StreamState::Failed, pending: false, ..old(self)@ }
                },
                Ok(page) => if Self::page_agrees(old(self)@.offset, page)
                    && old(self)@.offset + page.records@.len() <= usize::MAX {
                    &&& r is Ok
                    &&& final(self)@ == StreamView {
                        offset: old(self)@.offset + page.records@.len(),
                        pagination: Some(page.pagination),
                        buffer: old(self)@.buffer + page.records@,
                        delivered: old(self)@.delivered + page.records@,
                        state: if page.records@.len() == 0 {
                            StreamState::Exhausted
                        } else {
                            old(self)@.state
                        },
                        pending: false,
                        ..old(self)@
                    }
                } else {
                    &&& r == Err::<(), Error>(
                        Error::ProtocolViolation {
                            requested: old(self)@.offset as usize,
                            index: page.pagination.index,
                            result_count: page.pagination.result_count,
                            received: page.records@.len() as usize,
                        },
                    )
                    &&& final(self)@ == StreamView { state: StreamState::Failed, pending: false, ..old(self)@ }
                },
            },
    {
        self.pending = false;
        match outcome {
            Err(e) => {
                self.state = StreamState::Failed;
                Err(e)
            },
            Ok(page) => {
                let Page { records, pagination } = page;
                let requested = self.cursor.offset;
                let received = records.len();
                let agrees = pagination.index >= 0 && pagination.index as usize == requested
                    && pagination.result_count >= 0 && pagination.result_count as usize == received;
                if !agrees || received > usize::MAX - requested {
                    self.state = StreamState::Failed;
                    return Err(
                        Error::ProtocolViolation {
                            requested,
                            index: pagination.index,
                            result_count: pagination.result_count,
                            received,
                        },
                    );
                }
                self.cursor.pagination = Some(pagination);
                self.cursor.set_offset(requested + received);
                if received == 0 {
                    self.state = StreamState::Exhausted;
                }
                let ghost before = self.buffer@;
                let ghost snapshot = *self;
                let mut rest = records;
                let ghost page_records = rest@;
                let mut k: usize = 0;
                while k < received
                    invariant
                        received == page_records.len(),
                        k <= received,
                        rest@ == page_records.skip(k as int),
                        self.buffer@ == before + page_records.take(k as int),
                        self.cursor == snapshot.cursor,
                        self.state == snapshot.state,
                        self.pending == snapshot.pending,
                        self.start == snapshot.start,
                        self.delivered == snapshot.delivered,
                        self.yielded == snapshot.yielded,
                    decreases received - k,
                {
                    let x = rest.remove(0);
                    proof {
                        assert(page_records.skip(k as int)[0] == page_records[k as int]);
                        assert(page_records.skip(k + 1) =~= page_records.skip(k as int).remove(0));
                        assert(page_records.take(k + 1) =~= page_records.take(k as int).push(x));
                    }
                    self.buffer.push_back(x);
                    k = k + 1;
                }
                proof {
                    assert(page_records.take(received as int) =~= page_records);
                    self.delivered@ = self.delivered@ + page_records;
                    assert(self.delivered@ =~= self.yielded@ + self.buffer@);
                }
                Ok(())
            },
        }
    }
}

/// Once a stream has ended it stays ended: polling it again ends again and
/// changes nothing, so no further page is fetched.
pub proof fn lemma_end_repeats<T>(v: StreamView<T>)
    requires
        v.step_kind() == StepKind::End,
    ensures
        v.ended().step_kind() == StepKind::End,
        v.ended().ended() == v.ended(),
{
}

/// When a stream has ended, the records it handed out are exactly those of
/// the pages received, concatenated in the order they came.
pub proof fn lemma_order_preserved<T>(v: StreamView<T>)
    requires
        v.consistent(),
        v.step_kind() == StepKind::End,
    ensures
        v.yielded == v.delivered,
        v.ended().yielded == v.ended().delivered,
{
    assert(v.buffer.len() == 0);
    assert(v.yielded + v.buffer =~= v.yielded);
}

/// A stream that started at offset zero under a cap of `limit`, whose
/// reported total is at least the cap and whose pages did not run past the
/// cap, ends (while still active) only after handing out exactly `limit`
/// records.
pub proof fn lemma_cap_reached<T>(v: StreamView<T>, total: i64)
    requires
        v.consistent(),
        v.start == 0,
        0 <= v.limit <= usize::MAX,
        v.pagination matches Some(p) && p.total_count == total,
        total >= v.limit,
        v.offset <= v.limit,
        v.state == StreamState::Active,
        v.step_kind() == StepKind::End,
    ensures
        v.yielded.len() == v.limit,
{
    assert(v.buffer.len() == 0);
    assert(v.yielded + v.buffer =~= v.yielded);
}

/// A stream asks only for pages that start below its cap, and below the
/// reported total once one is known.
pub proof fn lemma_fetch_below_cap<T>(v: StreamView<T>)
    requires
        0 <= v.limit <= usize::MAX,
        0 <= v.offset,
        v.step_kind() == StepKind::Fetch,
    ensures
        v.offset < v.limit,
        v.pagination matches Some(p) ==> v.offset < p.total_count,
{
}

} // verus!
