//! The pagination stream: a lazy, forward-only walk of linked pages.
//!
//! A search or list response carries zero or more items and an optional
//! continuation link. Consuming the stream yields the current page's
//! remaining items first; only when they are exhausted and a next link
//! exists does it ask for one more fetch (an opaque follow URL, subject
//! to the same origin guard as every request). No next link ends the
//! stream; a fetch failure ends it with that error rather than silently
//! stopping.

use vstd::prelude::*;

use crate::error::Error;

verus! {

/// One page of results: its items and the opaque continuation link, when
/// the server offers one.
#[derive(Debug, Clone)]
pub struct Page<T> {
    pub items: Vec<T>,
    pub next: Option<String>,
}

/// What one poll of the stream produced.
#[derive(Debug)]
pub enum PollStep<T> {
    /// The next item, in page order.
    Item(T),
    /// The stream needs this URL fetched (through the executor, so the
    /// origin guard applies) and the page supplied back.
    Fetch(String),
    /// The stream is over.
    End,
    /// A fetch failed; the stream ends with that error.
    Failed(Error),
}

/// The items of a run of pages, in page order.
pub open spec fn flatten_items<T>(pages: Seq<Page<T>>) -> Seq<T>
    decreases pages.len(),
{
    if pages.len() == 0 {
        Seq::empty()
    } else {
        pages[0].items@ + flatten_items(pages.drop_first())
    }
}

/// A forward-only, non-restartable walk over linked pages.
#[derive(Debug)]
pub struct Paginator<T> {
    /// The items of the current page not yet yielded.
    pub current: Vec<T>,
    /// The current page's continuation link, if any.
    pub next: Option<String>,
    /// Whether a fetch was requested and its page not yet supplied.
    pub awaiting: bool,
    /// A fetch failure not yet surfaced.
    pub failed: Option<Error>,
    /// Whether the stream is over.
    pub ended: bool,
}

impl<T> Paginator<T> {
    /// Start the walk on an initial page.
    pub fn new(first: Page<T>) -> (r: Paginator<T>)
        ensures
            r.current == first.items,
            r.next == first.next,
            !r.awaiting,
            r.failed is None,
            !r.ended,
    {
        Paginator {
            current: first.items,
            next: first.next,
            awaiting: false,
            failed: None,
            ended: false,
        }
    }

    /// Advance the stream one step: the next item while the current page
    /// has one; then a fetch request while a next link exists; then the
    /// end. A recorded fetch failure is surfaced once, and the stream
    /// ends.
    pub fn poll(&mut self) -> (r: PollStep<T>)
        requires
            !old(self).awaiting,
        ensures
            final(self).awaiting == (r is Fetch),
            if old(self).ended {
                &&& r is End
                &&& final(self).ended
                &&& final(self).current@ == old(self).current@
            } else if old(self).failed is Some {
                &&& (r matches PollStep::Failed(e) && Some(e) == old(self).failed)
                &&& final(self).ended
                &&& final(self).failed is None
            } else if old(self).current@.len() > 0 {
                &&& (r matches PollStep::Item(t) && t == old(self).current@.first())
                &&& final(self).current@ == old(self).current@.drop_first()
                &&& final(self).next == old(self).next
                &&& final(self).failed is None
                &&& !final(self).ended
            } else {
                match old(self).next {
                    Some(u) => {
                        &&& (r matches PollStep::Fetch(x) && x@ == u@)
                        &&& final(self).current@.len() == 0
                        &&& final(self).failed is None
                        &&& !final(self).ended
                    },
                    None => {
                        &&& r is End
                        &&& final(self).ended
                        &&& final(self).current@ == old(self).current@
                    },
                }
            },
    {
        if self.ended {
            return PollStep::End;
        }
        let failure = self.failed.take();
        match failure {
            Some(e) => {
                self.ended = true;
                return PollStep::Failed(e);
            },
            None => {},
        }
        if self.current.len() > 0 {
            let item = self.current.remove(0);
            return PollStep::Item(item);
        }
        let link = self.next.take();
        match link {
            Some(u) => {
                self.awaiting = true;
                PollStep::Fetch(u)
            },
            None => {
                self.ended = true;
                PollStep::End
            },
        }
    }

    /// Supply the page a requested fetch produced.
    pub fn supply_page(&mut self, page: Page<T>)
        requires
            old(self).awaiting,
        ensures
            final(self).current == page.items,
            final(self).next == page.next,
            !final(self).awaiting,
            final(self).failed == old(self).failed,
            final(self).ended == old(self).ended,
    {
        self.current = page.items;
        self.next = page.next;
        self.awaiting = false;
    }

    /// Record that a requested fetch failed; the next poll surfaces the
    /// error and ends the stream.
    pub fn record_failure(&mut self, error: Error)
        requires
            old(self).awaiting,
        ensures
            final(self).failed == Some(error),
            !final(self).awaiting,
            final(self).current == old(self).current,
            final(self).next == old(self).next,
            final(self).ended == old(self).ended,
    {
        self.failed = Some(error);
        self.awaiting = false;
    }
}

/// Pagination termination: a run over a first page and its chain of
/// successor pages — each page offering a next link exactly while a
/// successor exists — yields all items of all pages, in page order, and
/// then ends. A page sequence with no next link yields exactly the items
/// of that page. This function drives the paginator exactly as an
/// embedder would, supplying the next chained page at each fetch
/// request.
pub fn collect_pages<T>(first: Page<T>, rest: Vec<Page<T>>) -> (r: Vec<T>)
    requires
        (first.next is Some) <==> rest@.len() > 0,
        forall|i: int|
            0 <= i < rest@.len() ==> (((#[trigger] rest@[i]).next is Some) <==> i + 1
                < rest@.len()),
    ensures
        r@ == first.items@ + flatten_items(rest@),
{
    let ghost all_items: Seq<T> = first.items@ + flatten_items(rest@);
    let mut remaining = rest;
    let mut out: Vec<T> = Vec::new();
    let mut pager = Paginator::new(first);
    loop
        invariant
            all_items == first.items@ + flatten_items(rest@),
            !pager.awaiting,
            !pager.ended,
            pager.failed is None,
            out@ + pager.current@ + flatten_items(remaining@) == all_items,
            (pager.next is Some) <==> remaining@.len() > 0,
            forall|i: int|
                0 <= i < remaining@.len() ==> (((#[trigger] remaining@[i]).next is Some) <==> i
                    + 1 < remaining@.len()),
        decreases remaining@.len(), pager.current@.len(),
    {
        let step = pager.poll();
        match step {
            PollStep::Item(t) => {
                out.push(t);
                proof {
                    assert(out@ + pager.current@ + flatten_items(remaining@) =~= all_items);
                }
            },
            PollStep::Fetch(_) => {
                let ghost chained = remaining@;
                let page = remaining.remove(0);
                proof {
                    assert(remaining@ =~= chained.drop_first());
                    assert(flatten_items(chained) == chained[0].items@ + flatten_items(
                        chained.drop_first(),
                    ));
                }
                pager.supply_page(page);
                proof {
                    assert(out@ + pager.current@ + flatten_items(remaining@) =~= all_items);
                }
            },
            PollStep::End => {
                proof {
                    assert(remaining@.len() == 0);
                    assert(flatten_items(remaining@) =~= Seq::<T>::empty());
                    assert(out@ + pager.current@ + flatten_items(remaining@) =~= out@);
                    assert(out@ == all_items);
                }
                return out;
            },
            PollStep::Failed(_) => {
                // Excluded by the invariant: no failure is ever recorded
                // in this run.
                proof {
                    assert(false);
                }
            },
        }
    }
}

} // verus!
