//! The bounded navigation history and its cursor.

use std::collections::VecDeque;
use vstd::laws_eq::obeys_concrete_eq;
use vstd::prelude::*;

verus! {

/// Most pages the history keeps; older entries are evicted from the front.
pub const HISTORY_LIMIT: usize = 10;

/// The last `n` items of a sequence, or all of it if it is shorter.
pub open spec fn most_recent<T>(s: Seq<T>, n: int) -> Seq<T> {
    if s.len() <= n {
        s
    } else {
        s.subrange(s.len() - n, s.len() as int)
    }
}

/// The history after a visit to `page`: the page is appended unless it is
/// already the newest entry, and only the newest `HISTORY_LIMIT` stay.
pub open spec fn recorded<PageId>(history: Seq<PageId>, page: PageId) -> Seq<PageId> {
    let appended = if history.len() > 0 && history.last() == page {
        history
    } else {
        history.push(page)
    };
    most_recent(appended, HISTORY_LIMIT as int)
}

/// The history after a series of visits, oldest first.
pub open spec fn recorded_all<PageId>(history: Seq<PageId>, visits: Seq<PageId>) -> Seq<PageId>
    decreases visits.len(),
{
    if visits.len() == 0 {
        history
    } else {
        recorded(recorded_all(history, visits.drop_last()), visits.last())
    }
}

/// Where the cursor stands after one step through a history of `len` pages:
/// it is first brought into range, then moved by one and kept in range.
pub open spec fn stepped_cursor(len: int, cursor: int, forward: bool) -> int {
    let start = if cursor >= len {
        len - 1
    } else {
        cursor
    };
    if forward {
        if start + 1 < len {
            start + 1
        } else {
            start
        }
    } else {
        if start > 0 {
            start - 1
        } else {
            0
        }
    }
}

/// The cursor after `evicted` entries left the front: it follows its page,
/// or rests on the oldest entry if its page is gone.
pub open spec fn shifted_cursor(cursor: int, evicted: int) -> int {
    if cursor >= evicted {
        cursor - evicted
    } else {
        0
    }
}

/// The history never exceeds its limit, and a visit always leaves the
/// visited page as the newest entry.
pub proof fn lemma_recorded<PageId>(history: Seq<PageId>, page: PageId)
    ensures
        1 <= recorded(history, page).len() <= HISTORY_LIMIT,
        recorded(history, page).last() == page,
{
}

/// Recording into a trimmed history is the same as trimming afterwards.
proof fn lemma_most_recent_push<T>(s: Seq<T>, x: T, n: int)
    requires
        n >= 1,
    ensures
        most_recent(most_recent(s, n).push(x), n) == most_recent(s.push(x), n),
{
    assert(most_recent(most_recent(s, n).push(x), n) =~= most_recent(s.push(x), n));
}

/// History bound: after any series of page changes in which no change
/// repeats the page before it, the history holds the most recent
/// `HISTORY_LIMIT` pages in order, and never more.
pub proof fn lemma_history_keeps_most_recent<PageId>(history: Seq<PageId>, visits: Seq<PageId>)
    requires
        history.len() <= HISTORY_LIMIT,
        forall|i: int|
            0 <= i < visits.len() && history.len() + i > 0 ==> (history + visits)[history.len() + i
                - 1] != #[trigger] visits[i],
    ensures
        recorded_all(history, visits) == most_recent(history + visits, HISTORY_LIMIT as int),
        recorded_all(history, visits).len() <= HISTORY_LIMIT,
    decreases visits.len(),
{
    if visits.len() == 0 {
        assert(history + visits =~= history);
    } else {
        let earlier = visits.drop_last();
        let page = visits.last();
        assert forall|i: int| 0 <= i < earlier.len() && history.len() + i > 0 implies (history
            + earlier)[history.len() + i - 1] != #[trigger] earlier[i] by {
            assert(earlier[i] == visits[i]);
            assert((history + earlier)[history.len() + i - 1] == (history + visits)[history.len()
                + i - 1]);
        }
        lemma_history_keeps_most_recent(history, earlier);
        let all = history + earlier;
        let kept = most_recent(all, HISTORY_LIMIT as int);
        assert(history + visits =~= all.push(page));
        if all.len() > 0 {
            assert(kept.last() == all.last());
            assert(visits[visits.len() - 1] == page);
            assert((history + visits)[history.len() + (visits.len() - 1) - 1] == all.last());
        }
        lemma_most_recent_push(all, page, HISTORY_LIMIT as int);
    }
}

/// Evicts from the front until at most `HISTORY_LIMIT` pages are left, and
/// lets the cursor follow.
pub fn trim_history<PageId>(history: &mut (VecDeque<PageId>, usize))
    ensures
        final(history).0@ == most_recent(old(history).0@, HISTORY_LIMIT as int),
        final(history).1 == shifted_cursor(
            old(history).1 as int,
            old(history).0@.len() - final(history).0@.len(),
        ),
{
    let ghost start = history.0@;
    let ghost start_cursor = history.1;
    while history.0.len() > HISTORY_LIMIT
        invariant
            history.0@.len() <= start.len(),
            history.0@.len() == start.len() || history.0@.len() >= HISTORY_LIMIT,
            history.0@ == start.subrange(start.len() - history.0@.len(), start.len() as int),
            history.1 == shifted_cursor(start_cursor as int, start.len() - history.0@.len()),
        decreases history.0@.len(),
    {
        let ghost before = history.0@;
        let _ = history.0.pop_front();
        if history.1 > 0 {
            history.1 = history.1 - 1;
        }
        assert(history.0@ =~= start.subrange(start.len() - history.0@.len(), start.len() as int));
    }
    assert(start.subrange(0, start.len() as int) =~= start);
}

/// Records a visit: appends the page unless it is already the newest entry,
/// evicts what exceeds the limit and moves the cursor to the newest entry.
pub fn record_visit<PageId: Copy + Eq>(history: &mut (VecDeque<PageId>, usize), page: PageId)
    requires
        obeys_concrete_eq::<PageId>(),
    ensures
        final(history).0@ == recorded(old(history).0@, page),
        final(history).1 == final(history).0@.len() - 1,
{
    proof {
        reveal(obeys_concrete_eq);
    }
    let len = history.0.len();
    let is_newest = len > 0 && history.0[len - 1] == page;
    if !is_newest {
        history.0.push_back(page);
    }
    trim_history(history);
    history.1 = history.0.len() - 1;
}

} // verus!
