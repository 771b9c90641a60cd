use vstd::prelude::*;
use crate::error::TikTokError;
use crate::json::{json_array_items, json_as_bool, json_as_i64, json_clone, json_get};

verus! {

/// One page of a cursor-paginated listing: the raw items, the cursor the
/// next page should resume from, and whether the server promises more.
#[derive(Debug)]
pub struct PageResult {
    pub items: Vec<serde_json::Value>,
    pub cursor: i64,
    pub has_more: bool,
}

/// How many items a page contributes: all of them, unless fewer are still
/// needed.
pub open spec fn spec_take_count(avail: int, need: int) -> int {
    if avail <= need {
        avail
    } else {
        need
    }
}

/// A page as the pagination engine reads it from the three named fields of
/// a listing response. A missing or non-array item field is a malformed
/// page; so is a missing or non-integer cursor while more pages are
/// promised. An absent or non-boolean "more" field means exhaustion.
pub fn page_from_parts(
    items: Option<Vec<serde_json::Value>>,
    has_more: Option<bool>,
    cursor: Option<i64>,
) -> (r: Result<PageResult, TikTokError>)
    ensures
        items is None ==> r == Err::<PageResult, TikTokError>(TikTokError::MalformedPage),
        items matches Some(it) ==> {
            &&& has_more == Some(true) && cursor is None ==> r == Err::<PageResult, TikTokError>(
                TikTokError::MalformedPage,
            )
            &&& cursor matches Some(c) ==> (has_more == Some(true) ==> (r matches Ok(p) && p.items
                == it && p.has_more && p.cursor == c))
            &&& has_more != Some(true) ==> (r matches Ok(p) && p.items == it && !p.has_more
                && p.cursor == 0)
        },
{
    match items {
        None => Err(TikTokError::MalformedPage),
        Some(it) => {
            let more = match has_more {
                Some(b) => b,
                None => false,
            };
            if more {
                match cursor {
                    Some(c) => Ok(PageResult { items: it, cursor: c, has_more: true }),
                    None => Err(TikTokError::MalformedPage),
                }
            } else {
                Ok(PageResult { items: it, cursor: 0, has_more: false })
            }
        },
    }
}

/// Reads one listing page out of a validated response document, through the
/// operation's item, has-more and cursor field names.
pub fn parse_page(
    v: &serde_json::Value,
    items_field: &str,
    has_more_field: &str,
    cursor_field: &str,
) -> (r: Result<PageResult, TikTokError>)
    ensures
        r is Ok || r == Err::<PageResult, TikTokError>(TikTokError::MalformedPage),
{
    let items = match json_get(v, items_field) {
        Some(x) => json_array_items(x),
        None => None,
    };
    let has_more = match json_get(v, has_more_field) {
        Some(x) => json_as_bool(x),
        None => None,
    };
    let cursor = match json_get(v, cursor_field) {
        Some(x) => json_as_i64(x),
        None => None,
    };
    page_from_parts(items, has_more, cursor)
}

/// The running state of one collection operation: how many items are wanted
/// in all, the per-page ceiling, what has accumulated, the cursor for the
/// next page, and whether the walk is exhausted — the server said so, or a
/// page came without items.
pub struct Paginator {
    pub target: usize,
    pub cap: usize,
    pub items: Vec<serde_json::Value>,
    pub cursor: i64,
    pub exhausted: bool,
}

impl Paginator {
    pub open spec fn wf(self) -> bool {
        &&& self.cap >= 1
        &&& self.items@.len() <= self.target
    }

    /// Collection stops at the requested count or at server-declared
    /// exhaustion, whichever comes first.
    pub open spec fn spec_done(self) -> bool {
        self.exhausted || self.items@.len() >= self.target
    }

    pub fn new(target: usize, cap: usize) -> (r: Paginator)
        requires
            cap >= 1,
        ensures
            r.wf(),
            r.target == target,
            r.cap == cap,
            r.items@ == Seq::<serde_json::Value>::empty(),
            r.cursor == 0,
            !r.exhausted,
    {
        Paginator { target, cap, items: Vec::new(), cursor: 0, exhausted: false }
    }

    pub fn needs_more(&self) -> (r: bool)
        ensures
            r == !self.spec_done(),
    {
        !self.exhausted && self.items.len() < self.target
    }

    /// The size to request for the next round trip: never more than the
    /// per-page ceiling, and never more than is still missing.
    pub fn page_size(&self) -> (r: usize)
        requires
            self.wf(),
            !self.spec_done(),
        ensures
            r == spec_take_count(self.cap as int, self.target - self.items@.len()),
            1 <= r <= self.cap,
            r <= self.target - self.items@.len(),
    {
        let remaining = self.target - self.items.len();
        if self.cap <= remaining {
            self.cap
        } else {
            remaining
        }
    }

    /// Folds one page in: appends its items until the page or the request
    /// is exhausted, remembers the cursor, and records exhaustion. A page
    /// with has_more unset finishes the collection even when fewer than
    /// the requested count have accumulated — a short, successful result,
    /// not an error. A page with no items at all finishes it too, whatever
    /// it promises: such a page makes no progress, and stopping on it is
    /// what keeps every collection finite.
    pub fn apply_page(&mut self, page: &PageResult)
        requires
            old(self).wf(),
            !old(self).spec_done(),
        ensures
            final(self).wf(),
            final(self).target == old(self).target,
            final(self).cap == old(self).cap,
            final(self).items@ == old(self).items@ + page.items@.take(
                spec_take_count(page.items@.len() as int, old(self).target - old(self).items@.len()),
            ),
            final(self).exhausted == (!page.has_more || page.items@.len() == 0),
            final(self).cursor == if page.has_more {
                page.cursor
            } else {
                old(self).cursor
            },
            !page.has_more || page.items@.len() == 0 ==> final(self).spec_done(),
    {
        let ghost want = spec_take_count(
            page.items@.len() as int,
            old(self).target - old(self).items@.len(),
        );
        let mut k: usize = 0;
        while k < page.items.len() && self.items.len() < self.target
            invariant
                self.target == old(self).target,
                self.cap == old(self).cap,
                self.cursor == old(self).cursor,
                self.exhausted == old(self).exhausted,
                k <= page.items@.len(),
                want == spec_take_count(
                    page.items@.len() as int,
                    old(self).target - old(self).items@.len(),
                ),
                k <= want,
                self.items@ == old(self).items@ + page.items@.take(k as int),
                self.items@.len() == old(self).items@.len() + k,
                self.items@.len() <= self.target,
            decreases page.items@.len() - k,
        {
            proof {
                assert(old(self).items@.len() + k < old(self).target);
                assert(k < want);
            }
            self.items.push(json_clone(&page.items[k]));
            proof {
                assert(page.items@.take(k as int + 1) =~= page.items@.take(k as int).push(
                    page.items@[k as int],
                ));
            }
            k = k + 1;
        }
        proof {
            assert(k == want);
        }
        if page.has_more {
            self.cursor = page.cursor;
            self.exhausted = page.items.len() == 0;
        } else {
            self.exhausted = true;
        }
    }
}

/// What collecting over a given sequence of pages yields: the items taken,
/// and how many pages were consumed. One page is folded in per step; the
/// walk stops at the requested count, at a page that declares exhaustion
/// or supplies nothing, or when the pages run out.
pub open spec fn spec_collect(
    pages: Seq<PageResult>,
    target: int,
    acc: Seq<serde_json::Value>,
    i: int,
) -> (Seq<serde_json::Value>, int)
    decreases pages.len() - i,
{
    if acc.len() >= target || i < 0 || i >= pages.len() {
        (acc, i)
    } else {
        let p = pages[i];
        let acc2 = acc + p.items@.take(spec_take_count(p.items@.len() as int, target - acc.len()));
        if !p.has_more || p.items@.len() == 0 {
            (acc2, i + 1)
        } else {
            spec_collect(pages, target, acc2, i + 1)
        }
    }
}

/// Pagination outcome, whatever the pages hold: never more items than the
/// requested count; pages are consumed in order; and a short result happens
/// only when a consumed page declared exhaustion or came empty, or the
/// pages ran out — so when every page promises more and supplies items,
/// collection stops exactly at the requested count.
pub proof fn lemma_collect_props(
    pages: Seq<PageResult>,
    target: int,
    acc: Seq<serde_json::Value>,
    i: int,
)
    requires
        0 <= i <= pages.len(),
        acc.len() <= target,
    ensures
        ({
            let (res, j) = spec_collect(pages, target, acc, i);
            &&& acc.len() <= res.len() <= target
            &&& i <= j <= pages.len()
            &&& res.len() < target ==> j == pages.len() || (i < j && (!pages[j - 1].has_more
                || pages[j - 1].items@.len() == 0))
        }),
    decreases pages.len() - i,
{
    if acc.len() >= target || i >= pages.len() {
    } else {
        let p = pages[i];
        let acc2 = acc + p.items@.take(spec_take_count(p.items@.len() as int, target - acc.len()));
        if !p.has_more || p.items@.len() == 0 {
        } else {
            lemma_collect_props(pages, target, acc2, i + 1);
        }
    }
}

/// Runs one whole collection over pages that are already at hand, exactly
/// as the live loop folds in pages as they arrive: the result is the items
/// collected and the number of round trips made.
pub fn collect_from_pages(pages: &Vec<PageResult>, target: usize, cap: usize) -> (r: (
    Vec<serde_json::Value>,
    usize,
))
    requires
        cap >= 1,
    ensures
        (r.0@, r.1 as int) == spec_collect(pages@, target as int, Seq::empty(), 0),
        r.0@.len() <= target,
        r.1 <= pages@.len(),
        r.0@.len() < target ==> r.1 == pages@.len() || (0 < r.1 && (!pages@[r.1 - 1].has_more
            || pages@[r.1 - 1].items@.len() == 0)),
{
    let ghost goal = spec_collect(pages@, target as int, Seq::empty(), 0);
    let mut pg = Paginator::new(target, cap);
    let mut i: usize = 0;
    let mut more = pg.needs_more();
    while more && i < pages.len()
        invariant
            pg.wf(),
            pg.target == target,
            pg.cap == cap,
            0 <= i <= pages@.len(),
            more == !pg.spec_done(),
            goal == spec_collect(pages@, target as int, Seq::empty(), 0),
            goal == if more {
                spec_collect(pages@, target as int, pg.items@, i as int)
            } else {
                (pg.items@, i as int)
            },
        decreases pages@.len() - i,
    {
        let ghost prev_items = pg.items@;
        let ghost prev_i = i as int;
        let page = &pages[i];
        pg.apply_page(page);
        i = i + 1;
        more = pg.needs_more();
        proof {
            let p = pages@[prev_i];
            let acc2 = prev_items + p.items@.take(
                spec_take_count(p.items@.len() as int, target - prev_items.len()),
            );
            assert(pg.items@ == acc2);
            assert(spec_collect(pages@, target as int, prev_items, prev_i) == if !p.has_more
                || p.items@.len() == 0 {
                (acc2, prev_i + 1)
            } else {
                spec_collect(pages@, target as int, acc2, prev_i + 1)
            });
            if p.has_more && p.items@.len() > 0 && acc2.len() >= target as int {
                assert(spec_collect(pages@, target as int, acc2, prev_i + 1) == (
                    acc2,
                    prev_i + 1,
                ));
            }
        }
    }
    proof {
        if more {
            assert(spec_collect(pages@, target as int, pg.items@, i as int) == (
                pg.items@,
                i as int,
            ));
        }
        lemma_collect_props(pages@, target as int, Seq::empty(), 0);
    }
    (pg.items, i)
}

/// At most the first n items, in order; what a single-page listing hands
/// its caller when the server returned more than was asked for.
pub fn take_prefix(items: Vec<serde_json::Value>, n: usize) -> (r: Vec<serde_json::Value>)
    ensures
        r@ == items@.take(spec_take_count(items@.len() as int, n as int)),
{
    let ghost orig = items@;
    let mut items = items;
    if n < items.len() {
        items.truncate(n);
    }
    proof {
        assert(items@ =~= orig.take(spec_take_count(orig.len() as int, n as int)));
    }
    items
}

} // verus!
