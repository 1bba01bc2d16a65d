//! The paginator: collects a course's complete assignment list from
//! repeated page fetches, stopping at the first empty page, with a
//! defensive bound on the number of pages so a listing that never ends
//! cannot hang the run.

use vstd::prelude::*;
use crate::model::Assignment;

verus! {

/// The defensive upper bound on pages fetched for one course. Reaching it
/// without seeing an empty page aborts the run with a distinct error.
pub const MAX_PAGES: u32 = 10000;

/// Where a pagination run stands.
#[derive(Debug, Clone, Copy, PartialEq, Eq, Structural)]
pub enum PagStatus {
    /// More pages must be fetched.
    InProgress,
    /// An empty page arrived: the collected list is complete.
    Done,
    /// The page bound was reached before any empty page.
    Overflowed,
}

/// The mathematical state of a pagination run.
pub ghost struct PagModel {
    pub next_page: nat,
    pub pages_fetched: nat,
    pub items: Seq<Assignment>,
    pub status: PagStatus,
}

/// The state a pagination run starts in: nothing collected, about to fetch
/// page 1.
pub open spec fn pag_init() -> PagModel {
    PagModel { next_page: 1, pages_fetched: 0, items: Seq::empty(), status: PagStatus::InProgress }
}

/// How one fetched page changes a pagination run: an empty page completes
/// it; a non-empty page is appended and the next page is requested, unless
/// the page bound is reached, which overflows the run. Every fed page
/// counts as one fetch.
pub open spec fn pag_feed(v: PagModel, page: Seq<Assignment>) -> PagModel
    recommends
        v.status is InProgress,
{
    if page.len() == 0 {
        PagModel {
            next_page: v.next_page,
            pages_fetched: v.pages_fetched + 1,
            items: v.items,
            status: PagStatus::Done,
        }
    } else if v.next_page >= MAX_PAGES {
        PagModel {
            next_page: v.next_page,
            pages_fetched: v.pages_fetched + 1,
            items: v.items + page,
            status: PagStatus::Overflowed,
        }
    } else {
        PagModel {
            next_page: v.next_page + 1,
            pages_fetched: v.pages_fetched + 1,
            items: v.items + page,
            status: PagStatus::InProgress,
        }
    }
}

/// A paginator collecting one course's assignment list.
pub struct Paginator {
    pub course_id: i32,
    pub next_page: u32,
    pub pages_fetched: u32,
    pub items: Vec<Assignment>,
    pub status: PagStatus,
}

impl Paginator {
    /// The paginator's mathematical state.
    pub open spec fn view(&self) -> PagModel {
        PagModel {
            next_page: self.next_page as nat,
            pages_fetched: self.pages_fetched as nat,
            items: self.items@,
            status: self.status,
        }
    }

    /// The page counters stay within the defensive bound.
    pub open spec fn wf(&self) -> bool {
        &&& 1 <= self.next_page <= MAX_PAGES
        &&& self.status is InProgress ==> self.pages_fetched == self.next_page - 1
        &&& !(self.status is InProgress) ==> self.pages_fetched <= self.next_page
    }

    /// Starts a pagination run for one course.
    pub fn new(course_id: i32) -> (p: Paginator)
        ensures
            p.wf(),
            p.course_id == course_id,
            p@ == pag_init(),
    {
        let p = Paginator {
            course_id,
            next_page: 1,
            pages_fetched: 0,
            items: Vec::new(),
            status: PagStatus::InProgress,
        };
        proof {
            assert(p@.items =~= pag_init().items);
        }
        p
    }

    /// Takes one fetched page into the run, as `pag_feed` describes.
    pub fn feed(&mut self, page: Vec<Assignment>)
        requires
            old(self).wf(),
            old(self).status is InProgress,
        ensures
            final(self).wf(),
            final(self).course_id == old(self).course_id,
            final(self)@ == pag_feed(old(self)@, page@),
    {
        self.pages_fetched = self.pages_fetched + 1;
        if page.len() == 0 {
            self.status = PagStatus::Done;
        } else if self.next_page >= MAX_PAGES {
            let mut page = page;
            self.items.append(&mut page);
            self.status = PagStatus::Overflowed;
        } else {
            let mut page = page;
            self.items.append(&mut page);
            self.next_page = self.next_page + 1;
        }
    }

    /// Hands out the collected list once the run is complete.
    pub fn into_items(self) -> (r: Vec<Assignment>)
        ensures
            r@ == self@.items,
    {
        self.items
    }

    /// Moves the collected list out, leaving the counters untouched.
    pub fn take_items(&mut self) -> (r: Vec<Assignment>)
        ensures
            r@ == old(self)@.items,
            final(self).course_id == old(self).course_id,
            final(self).next_page == old(self).next_page,
            final(self).pages_fetched == old(self).pages_fetched,
            final(self).status == old(self).status,
            final(self).items@ == Seq::<Assignment>::empty(),
    {
        let mut v: Vec<Assignment> = Vec::new();
        core::mem::swap(&mut v, &mut self.items);
        v
    }
}

/// Feeding two non-empty pages and then an empty one yields exactly their
/// concatenation, and exactly three page fetches occur.
pub proof fn lemma_paginate_two_pages(a: Seq<Assignment>, b: Seq<Assignment>)
    requires
        a.len() > 0,
        b.len() > 0,
    ensures
        ({
            let v = pag_feed(pag_feed(pag_feed(pag_init(), a), b), Seq::empty());
            &&& v.items == a + b
            &&& v.pages_fetched == 3
            &&& v.status is Done
        }),
{
    let v = pag_feed(pag_feed(pag_feed(pag_init(), a), b), Seq::empty());
    assert(v.items =~= a + b);
}

/// An immediately empty first page yields an empty list, after exactly one
/// page fetch.
pub proof fn lemma_paginate_empty(page: Seq<Assignment>)
    requires
        page.len() == 0,
    ensures
        ({
            let v = pag_feed(pag_init(), page);
            &&& v.items == Seq::<Assignment>::empty()
            &&& v.pages_fetched == 1
            &&& v.status is Done
        }),
{
}


/// Folding a whole sequence of fetched pages into a pagination run, one
/// `pag_feed` step per page.
pub open spec fn pag_run(v: PagModel, pages: Seq<Seq<Assignment>>) -> PagModel
    decreases pages.len(),
{
    if pages.len() == 0 {
        v
    } else {
        pag_run(pag_feed(v, pages[0]), pages.drop_first())
    }
}

/// The generalized pagination invariant: from any in-progress state with
/// room for the pages within the page bound, feeding a sequence of
/// non-empty pages and then an empty one appends exactly their
/// concatenation, counts one fetch per page, and completes the run.
pub proof fn lemma_pag_run_collects(v: PagModel, pages: Seq<Seq<Assignment>>)
    requires
        v.status is InProgress,
        v.next_page >= 1,
        v.next_page + pages.len() <= MAX_PAGES,
        forall|i: int| 0 <= i < pages.len() ==> (#[trigger] pages[i]).len() > 0,
    ensures
        ({
            let w = pag_run(v, pages.push(Seq::empty()));
            &&& w.items == v.items + pages.flatten()
            &&& w.pages_fetched == v.pages_fetched + pages.len() + 1
            &&& w.status is Done
        }),
    decreases pages.len(),
{
    let p = pages.push(Seq::<Assignment>::empty());
    if pages.len() == 0 {
        assert(p[0].len() == 0);
        assert(p.drop_first() =~= Seq::<Seq<Assignment>>::empty());
        let v1 = pag_feed(v, p[0]);
        assert(pag_run(v1, Seq::<Seq<Assignment>>::empty()) == v1);
        assert(pag_run(v, p) == pag_run(v1, p.drop_first()));
        assert(pages.flatten() =~= Seq::<Assignment>::empty());
        assert(pag_feed(v, p[0]).items =~= v.items + pages.flatten());
    } else {
        assert(p[0] == pages[0]);
        assert(p.drop_first() =~= pages.drop_first().push(Seq::<Assignment>::empty()));
        let v1 = pag_feed(v, pages[0]);
        assert(v1.status is InProgress);
        lemma_pag_run_collects(v1, pages.drop_first());
        let w = pag_run(v, p);
        assert(w == pag_run(v1, pages.drop_first().push(Seq::<Assignment>::empty())));
        assert(pages.flatten() == pages[0] + pages.drop_first().flatten());
        assert(w.items =~= v.items + pages.flatten());
    }
}

/// The paginated assignment list of a course is the concatenation of all
/// the non-empty pages, terminated by the first empty page, with exactly
/// one fetch per page.
pub proof fn lemma_paginate_collects_all(pages: Seq<Seq<Assignment>>)
    requires
        pages.len() < MAX_PAGES,
        forall|i: int| 0 <= i < pages.len() ==> (#[trigger] pages[i]).len() > 0,
    ensures
        ({
            let w = pag_run(pag_init(), pages.push(Seq::empty()));
            &&& w.items == pages.flatten()
            &&& w.pages_fetched == pages.len() + 1
            &&& w.status is Done
        }),
{
    lemma_pag_run_collects(pag_init(), pages);
    assert(pag_init().items + pages.flatten() =~= pages.flatten());
}

} // verus!
