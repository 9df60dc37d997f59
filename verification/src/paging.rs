//! Walking through the pages of a listing that is served in parts.

use vstd::prelude::*;

verus! {

/// The numbers from `from` up to and including `to`, in order.
pub open spec fn page_range(from: int, to: int) -> Seq<int>
    decreases to - from + 1,
{
    if from > to {
        Seq::empty()
    } else {
        seq![from] + page_range(from + 1, to)
    }
}

/// The offsets from `from` on, `step` apart, that are below `total`.
pub open spec fn offset_range(from: int, total: int, step: int) -> Seq<int>
    decreases
        (if total > from {
            total - from
        } else {
            0
        }),
{
    if from >= total || step <= 0 {
        Seq::empty()
    } else {
        seq![from] + offset_range(from + step, total, step)
    }
}

/// There are as many pages as numbers from the first to the last.
pub proof fn lemma_page_range_len(from: int, to: int)
    ensures
        page_range(from, to).len() == if from > to {
            0
        } else {
            to - from + 1
        },
        forall|i: int| 0 <= i < page_range(from, to).len() ==> page_range(from, to)[i] == from + i,
    decreases to - from + 1,
{
    if from <= to {
        lemma_page_range_len(from + 1, to);
        assert forall|i: int| 0 <= i < page_range(from, to).len() implies page_range(from, to)[i]
            == from + i by {
            if i > 0 {
                assert(page_range(from, to)[i] == page_range(from + 1, to)[i - 1]);
            }
        }
    }
}

/// Where a walk through numbered pages stands: the next page to ask for
/// and the last one there is.
#[derive(Clone, Copy, Debug, PartialEq, Eq, Structural)]
pub struct PageCursor {
    pub next: i64,
    pub last: i64,
}

impl PageCursor {
    /// The pages still to ask for, in order.
    pub open spec fn pending(self) -> Seq<int> {
        page_range(self.next as int, self.last as int)
    }

    /// The last page is one that a 32-bit number can name.
    pub open spec fn wf(self) -> bool {
        self.last <= i32::MAX && self.next >= i32::MIN
    }

    /// A walk from the first page to the last, both included.
    pub fn new(first_page: i32, last_page: i32) -> (c: PageCursor)
        ensures
            c.wf(),
            c.pending() == page_range(first_page as int, last_page as int),
    {
        PageCursor { next: first_page as i64, last: last_page as i64 }
    }

    /// The next page to ask for, if any is left. The walk ends with the
    /// last page, whatever the pages hold.
    pub fn next_page(&mut self) -> (r: Option<i32>)
        requires
            old(self).wf(),
        ensures
            final(self).wf(),
            match r {
                Some(p) => old(self).pending().len() > 0 && p == old(self).pending()[0]
                    && final(self).pending() == old(self).pending().drop_first(),
                None => old(self).pending().len() == 0 && *final(self) == *old(self),
            },
    {
        if self.next > self.last {
            None
        } else {
            let page = self.next as i32;
            assert(self.pending().drop_first() == page_range(self.next + 1, self.last as int));
            self.next = self.next + 1;
            Some(page)
        }
    }
}

/// Where a walk through a listing by offsets stands: the next offset to
/// ask for, the number of items in all, and the size of a page.
#[derive(Clone, Copy, Debug, PartialEq, Eq, Structural)]
pub struct OffsetCursor {
    pub offset: i64,
    pub total: i64,
    pub step: i64,
}

impl OffsetCursor {
    /// The offsets still to ask for, in order.
    pub open spec fn pending(self) -> Seq<int> {
        offset_range(self.offset as int, self.total as int, self.step as int)
    }

    /// The page size is positive, and offset and total are such that
    /// 32-bit numbers can name every offset asked for.
    pub open spec fn wf(self) -> bool {
        0 < self.step <= i32::MAX && self.total <= i32::MAX && i32::MIN <= self.offset
    }

    /// A walk through what follows the first page of a listing, which the
    /// first request has brought already: from the offset of one page
    /// size on, while the offset is below the total. Without a total, and
    /// with a page size that is not positive, there is nothing to walk
    /// through.
    pub fn new(total: Option<i32>, page_size: i32) -> (c: OffsetCursor)
        ensures
            c.wf(),
            c.pending() == match total {
                Some(t) => offset_range(page_size as int, t as int, page_size as int),
                None => Seq::<int>::empty(),
            },
    {
        match total {
            Some(t) => if page_size > 0 {
                OffsetCursor { offset: page_size as i64, total: t as i64, step: page_size as i64 }
            } else {
                OffsetCursor { offset: 0, total: 0, step: 1 }
            },
            None => OffsetCursor { offset: 0, total: 0, step: 1 },
        }
    }

    /// The next offset to ask for, if any is left. Whether the request
    /// for it succeeds or fails, the walk goes on behind it.
    pub fn next_offset(&mut self) -> (r: Option<i32>)
        requires
            old(self).wf(),
        ensures
            final(self).wf(),
            match r {
                Some(o) => old(self).pending().len() > 0 && o == old(self).pending()[0]
                    && final(self).pending() == old(self).pending().drop_first(),
                None => old(self).pending().len() == 0 && *final(self) == *old(self),
            },
    {
        if self.offset >= self.total {
            None
        } else {
            let offset = self.offset as i32;
            assert(self.pending().drop_first() == offset_range(
                self.offset + self.step,
                self.total as int,
                self.step as int,
            ));
            self.offset = self.offset + self.step;
            Some(offset)
        }
    }
}

} // verus!
