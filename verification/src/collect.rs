//! Paginated collection: accumulating one project's issues page by page
//! until the terminal empty page.

use vstd::prelude::*;
use crate::types::{Issue, IssueV};

verus! {

/// Whether a page payload of this byte length is the terminal page: at or
/// below the length of an empty array literal.
pub open spec fn is_terminal_payload(len: nat) -> bool {
    len <= 2
}

/// Accumulates the issues of one project across its pages. The caller
/// fetches page after page, starting at page 1, and folds each answer in
/// with `observe` until it reports the collection complete.
pub struct PageCollector {
    /// The page to fetch next.
    pub page: u64,
    /// The records of every non-terminal page seen so far, in fetch order.
    pub items: Vec<Issue>,
}

impl PageCollector {
    /// A collector about to fetch page 1, holding nothing.
    pub fn new() -> (c: Self)
        ensures
            c.page == 1,
            c.items@ == Seq::<Issue>::empty(),
    {
        PageCollector { page: 1, items: Vec::new() }
    }

    /// Folds one fetched page in. A payload at or below the empty-array
    /// threshold is the terminal page: nothing is taken from it and the
    /// collection is reported complete. Any other page's records are
    /// appended in order and the page counter moves on (and stays put at
    /// its largest representable value).
    pub fn observe(&mut self, payload_len: usize, page_items: Vec<Issue>) -> (done: bool)
        ensures
            done == is_terminal_payload(payload_len as nat),
            done ==> *final(self) == *old(self),
            !done ==> final(self).items.deep_view() == old(self).items.deep_view()
                + page_items.deep_view() && final(self).page as int == (if old(self).page
                < u64::MAX {
                old(self).page + 1
            } else {
                u64::MAX as int
            }),
    {
        if payload_len <= 2 {
            true
        } else {
            let mut taken = page_items;
            self.items.append(&mut taken);
            if self.page < u64::MAX {
                self.page = self.page + 1;
            }
            proof {
                assert(self.items.deep_view() =~= old(self).items.deep_view()
                    + page_items.deep_view());
            }
            false
        }
    }

    /// Hands the collected records out, leaving the collector empty.
    pub fn take_items(&mut self) -> (items: Vec<Issue>)
        ensures
            items == old(self).items,
            final(self).items@ == Seq::<Issue>::empty(),
            final(self).page == old(self).page,
    {
        let mut v: Vec<Issue> = Vec::new();
        core::mem::swap(&mut v, &mut self.items);
        v
    }
}

/// The concatenation of a run of pages, in order.
pub open spec fn concat_pages(pages: Seq<Seq<IssueV>>) -> Seq<IssueV>
    decreases pages.len(),
{
    if pages.len() == 0 {
        Seq::empty()
    } else {
        pages[0] + concat_pages(pages.drop_first())
    }
}

/// What a collection run returns over a sequence of fetched pages, each
/// given as its payload byte length and its decoded records: every page up
/// to the first terminal payload contributes its records, in fetch order.
pub open spec fn collect_spec(pages: Seq<(usize, Seq<IssueV>)>) -> Seq<IssueV>
    decreases pages.len(),
{
    if pages.len() == 0 {
        Seq::empty()
    } else if is_terminal_payload(pages[0].0 as nat) {
        Seq::empty()
    } else {
        pages[0].1 + collect_spec(pages.drop_first())
    }
}

/// Collects from pages already fetched: folds them in order until the
/// first terminal payload; pages after it contribute nothing.
pub fn collect_pages(pages: Vec<(usize, Vec<Issue>)>) -> (r: Vec<Issue>)
    ensures
        r.deep_view() == collect_spec(pages.deep_view()),
{
    let ghost all = pages.deep_view();
    let mut c = PageCollector::new();
    let mut rest = pages;
    let mut done = false;
    proof {
        assert(c.items.deep_view() + collect_spec(rest.deep_view()) =~= collect_spec(all));
    }
    while !done && rest.len() > 0
        invariant
            !done ==> c.items.deep_view() + collect_spec(rest.deep_view()) == collect_spec(all),
            done ==> c.items.deep_view() == collect_spec(all),
        decreases rest@.len(),
    {
        let ghost before = rest.deep_view();
        let (len, items) = rest.remove(0);
        proof {
            assert(rest.deep_view() =~= before.drop_first());
        }
        done = c.observe(len, items);
        proof {
            if done {
                assert(collect_spec(before) =~= Seq::<IssueV>::empty());
            } else {
                assert(c.items.deep_view() + collect_spec(rest.deep_view()) =~= collect_spec(
                    all,
                ));
            }
        }
    }
    proof {
        if !done {
            assert(rest.deep_view() =~= Seq::<(usize, Seq<IssueV>)>::empty());
        }
    }
    c.take_items()
}

/// Law: over a run of pages whose last payload is the terminal empty page
/// and whose earlier payloads are not, the collection is exactly the
/// concatenation of the non-terminal pages in fetch order, the terminal
/// page excluded.
pub proof fn lemma_collect_concat(pages: Seq<(usize, Seq<IssueV>)>)
    requires
        pages.len() > 0,
        is_terminal_payload(pages.last().0 as nat),
        forall|i: int| 0 <= i < pages.len() - 1 ==> !is_terminal_payload(
            (#[trigger] pages[i]).0 as nat,
        ),
    ensures
        collect_spec(pages) == concat_pages(
            pages.take(pages.len() - 1).map_values(|p: (usize, Seq<IssueV>)| p.1),
        ),
    decreases pages.len(),
{
    let front = pages.take(pages.len() - 1).map_values(|p: (usize, Seq<IssueV>)| p.1);
    if pages.len() == 1 {
        assert(front =~= Seq::<Seq<IssueV>>::empty());
        assert(collect_spec(pages) == concat_pages(front));
    } else {
        let rest = pages.drop_first();
        assert(rest.last() == pages.last());
        lemma_collect_concat(rest);
        let rest_front = rest.take(rest.len() - 1).map_values(|p: (usize, Seq<IssueV>)| p.1);
        assert(front.drop_first() =~= rest_front);
        assert(concat_pages(front) == front[0] + concat_pages(front.drop_first()));
        assert(collect_spec(pages) == pages[0].1 + collect_spec(rest));
        assert(front[0] == pages[0].1);
    }
}

} // verus!
