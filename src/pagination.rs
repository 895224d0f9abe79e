//! Page descriptors and the cursor that walks a paginated query.

use vstd::prelude::*;

verus! {

/// The largest number of results that the service hands out for any one
/// paginated query, whatever total it reports.
pub const API_PAGINATION_RESULTS_LIMIT: usize = 10_000;

/// What the service reports of one page: the offset it starts at, the page
/// size, how many records it holds, and how many the query has in all.
#[derive(Clone, Copy, Debug, PartialEq, Eq, Structural)]
pub struct Pagination {
    pub index: i32,
    pub page_size: i32,
    pub result_count: i32,
    pub total_count: i64,
}

/// One page of records and its descriptor.
#[derive(Debug)]
pub struct Page<T> {
    pub records: Vec<T>,
    pub pagination: Pagination,
}

/// The smaller of a cap and a reported total, a negative total counting as
/// none.
pub open spec fn capped_total(limit: usize, total: i64) -> int {
    if total < 0 {
        0
    } else if (total as int) < (limit as int) {
        total as int
    } else {
        limit as int
    }
}

/// The cursor over one paginated query: the offset of the next page, the
/// descriptor of the last page received, and the cap on results.
#[derive(Debug)]
pub struct PageCursor {
    pub offset: usize,
    pub pagination: Option<Pagination>,
    pub limit: usize,
}

impl PageCursor {
    /// A cursor that starts at `index`, or at zero where none is given.
    pub fn new(index: Option<i32>, limit: usize) -> (r: PageCursor)
        requires
            index matches Some(i) ==> i >= 0,
        ensures
            r.offset == (match index {
                Some(i) => i as int,
                None => 0,
            }),
            r.pagination is None,
            r.limit == limit,
    {
        let offset: usize = match index {
            Some(i) => i as usize,
            None => 0,
        };
        PageCursor { offset, pagination: None, limit }
    }

    /// The offset of the next page.
    pub fn offset(&self) -> (r: usize)
        ensures
            r == self.offset,
    {
        self.offset
    }

    /// Moves the cursor to another offset.
    pub fn set_offset(&mut self, value: usize)
        ensures
            final(self).offset == value,
            final(self).pagination == old(self).pagination,
            final(self).limit == old(self).limit,
    {
        self.offset = value;
    }

    /// How many results the query is known to have, up to the cap; `None`
    /// until a page has been received.
    pub open spec fn total_spec(&self) -> Option<int> {
        match self.pagination {
            Some(p) => Some(capped_total(self.limit, p.total_count)),
            None => None,
        }
    }

    /// How many results the query is known to have, up to the cap; `None`
    /// until a page has been received.
    pub fn total_items(&self) -> (r: Option<usize>)
        ensures
            r matches Some(n) ==> self.total_spec() == Some(n as int),
            r is None <==> self.total_spec() is None,
    {
        match self.pagination {
            Some(p) => {
                if p.total_count < 0 {
                    Some(0)
                } else if (p.total_count as u64) < (self.limit as u64) {
                    Some(p.total_count as usize)
                } else {
                    Some(self.limit)
                }
            },
            None => None,
        }
    }
}

} // verus!
