//! Pagination over a seller's inventory: which page to fetch next and which
//! release ids have been collected, up to an optional limit.
use vstd::prelude::*;
use crate::job::PageSummary;
use crate::types::{InventoryResponse, Listing};

verus! {

/// The mathematical state of an [`InventoryPager`].
pub struct PagerModel {
    pub next_page: u32,
    pub ids: Seq<u64>,
    pub limit: Option<u32>,
    pub finished: bool,
}

pub open spec fn new_pager(limit: Option<u32>) -> PagerModel {
    PagerModel { next_page: 1, ids: Seq::empty(), limit, finished: false }
}

pub open spec fn limit_reached(limit: Option<u32>, len: nat) -> bool {
    match limit {
        Some(l) => len >= l,
        None => false,
    }
}

/// The pager after page `p.next_page` arrived with `page` and reported
/// `total_pages` pages in all.
pub open spec fn accept(p: PagerModel, page: Seq<u64>, total_pages: u32) -> PagerModel {
    let joined = p.ids + page;
    if limit_reached(p.limit, joined.len()) {
        PagerModel { ids: joined.take(p.limit->Some_0 as int), finished: true, ..p }
    } else if p.next_page >= total_pages {
        PagerModel { ids: joined, finished: true, ..p }
    } else {
        PagerModel { ids: joined, next_page: (p.next_page + 1) as u32, ..p }
    }
}

/// The pager after the pages of `pages` arrived in order (those after it
/// finished are not fetched).
pub open spec fn feed(p: PagerModel, pages: Seq<Seq<u64>>, total_pages: u32) -> PagerModel
    decreases pages.len(),
{
    if pages.len() == 0 || p.finished {
        p
    } else {
        feed(accept(p, pages[0], total_pages), pages.drop_first(), total_pages)
    }
}

proof fn lemma_feed_truncates(p: PagerModel, pages: Seq<Seq<u64>>, total_pages: u32, l: u32)
    requires
        !p.finished,
        pages.len() > 0,
        p.limit == Some(l),
        p.ids.len() <= l,
        (p.ids + pages.flatten()).len() >= l,
        p.next_page + pages.len() <= total_pages + 1,
    ensures
        feed(p, pages, total_pages).ids == (p.ids + pages.flatten()).take(l as int),
        feed(p, pages, total_pages).finished,
    decreases pages.len(),
{
    let joined = p.ids + pages[0];
    let rest = pages.drop_first();
    let q = accept(p, pages[0], total_pages);
    assert(pages.flatten() == pages[0] + rest.flatten());
    assert(feed(p, pages, total_pages) == feed(q, rest, total_pages));
    assert(p.ids + pages.flatten() =~= joined + rest.flatten());
    if joined.len() >= l {
        assert(joined.take(l as int) =~= (joined + rest.flatten()).take(l as int));
        assert(feed(q, rest, total_pages) == q);
    } else {
        if rest.len() == 0 {
            assert(joined + rest.flatten() =~= joined);
        }
        lemma_feed_truncates(q, rest, total_pages, l);
    }
}

/// What a pager keeps of the ids `all`: the first `limit` of them when
/// there are that many, else all of them.
pub open spec fn collected(limit: Option<u32>, all: Seq<u64>) -> Seq<u64> {
    if limit_reached(limit, all.len()) {
        all.take(limit->Some_0 as int)
    } else {
        all
    }
}

proof fn lemma_feed_collects(p: PagerModel, pages: Seq<Seq<u64>>, total_pages: u32)
    requires
        !p.finished,
        pages.len() > 0,
        !limit_reached(p.limit, p.ids.len()) || p.ids.len() == 0,
        p.next_page + pages.len() == total_pages + 1 || (pages.len() == 1 && p.next_page
            >= total_pages),
    ensures
        feed(p, pages, total_pages).ids == collected(p.limit, p.ids + pages.flatten()),
        feed(p, pages, total_pages).finished,
    decreases pages.len(),
{
    let joined = p.ids + pages[0];
    let rest = pages.drop_first();
    let q = accept(p, pages[0], total_pages);
    assert(pages.flatten() == pages[0] + rest.flatten());
    assert(feed(p, pages, total_pages) == feed(q, rest, total_pages));
    assert(p.ids + pages.flatten() =~= joined + rest.flatten());
    if limit_reached(p.limit, joined.len()) {
        let l = p.limit->Some_0;
        assert(joined.take(l as int) =~= (joined + rest.flatten()).take(l as int));
        assert(feed(q, rest, total_pages) == q);
    } else if rest.len() == 0 {
        assert(joined + rest.flatten() =~= joined);
        assert(feed(q, rest, total_pages) == q);
    } else {
        lemma_feed_collects(q, rest, total_pages);
    }
}

/// Fed the pages that the remote side reports (page 1 alone when it reports
/// none), in order, the pager finishes with their ids in page order,
/// truncated to the limit when there are more.
pub proof fn lemma_pager_collects(limit: Option<u32>, pages: Seq<Seq<u64>>, total_pages: u32)
    requires
        pages.len() == total_pages || (pages.len() == 1 && total_pages == 0),
        pages.len() > 0,
    ensures
        feed(new_pager(limit), pages, total_pages).ids == collected(limit, pages.flatten()),
        feed(new_pager(limit), pages, total_pages).finished,
{
    assert(Seq::<u64>::empty() + pages.flatten() =~= pages.flatten());
    lemma_feed_collects(new_pager(limit), pages, total_pages);
}

/// With a limit, when the pages fetched (at least one) hold at least `limit`
/// ids and the remote side reports at least as many pages as that, the pager
/// finishes with exactly the first `limit` ids, in page order.
pub proof fn lemma_pager_truncates_to_limit(limit: u32, pages: Seq<Seq<u64>>, total_pages: u32)
    requires
        pages.flatten().len() >= limit,
        0 < pages.len() <= total_pages,
    ensures
        feed(new_pager(Some(limit)), pages, total_pages).ids == pages.flatten().take(limit as int),
        feed(new_pager(Some(limit)), pages, total_pages).finished,
{
    assert(Seq::<u64>::empty() + pages.flatten() =~= pages.flatten());
    lemma_feed_truncates(new_pager(Some(limit)), pages, total_pages, limit);
}

/// Decides which inventory page comes next and collects release ids.
pub struct InventoryPager {
    next_page: u32,
    release_ids: Vec<u64>,
    limit: Option<u32>,
    finished: bool,
}

impl View for InventoryPager {
    type V = PagerModel;

    closed spec fn view(&self) -> PagerModel {
        PagerModel {
            next_page: self.next_page,
            ids: self.release_ids@,
            limit: self.limit,
            finished: self.finished,
        }
    }
}

impl InventoryPager {
    pub fn new(limit: Option<u32>) -> (r: InventoryPager)
        ensures
            r@ == new_pager(limit),
    {
        InventoryPager { next_page: 1, release_ids: Vec::new(), limit, finished: false }
    }

    /// The page to fetch next, or `None` once collection is over.
    pub fn next_page(&self) -> (r: Option<u32>)
        ensures
            r == (if self@.finished { None } else { Some(self@.next_page) }),
    {
        if self.finished {
            None
        } else {
            Some(self.next_page)
        }
    }

    /// Take the release ids of page `next_page` and the page count that the
    /// remote side reported with it.
    pub fn accept_page(&mut self, page_ids: &Vec<u64>, total_pages: u32)
        requires
            !old(self)@.finished,
        ensures
            final(self)@ == accept(old(self)@, page_ids@, total_pages),
    {
        let ghost start = self.release_ids@;
        let mut i: usize = 0;
        while i < page_ids.len()
            invariant
                i <= page_ids@.len(),
                self.release_ids@ == start + page_ids@.take(i as int),
                self.limit == old(self).limit,
                self.next_page == old(self).next_page,
                self.finished == old(self).finished,
                start == old(self)@.ids,
            decreases page_ids@.len() - i,
        {
            self.release_ids.push(page_ids[i]);
            i = i + 1;
            assert(page_ids@.take(i as int) =~= page_ids@.take(i - 1) + seq![page_ids@[i - 1]]);
        }
        assert(page_ids@.take(i as int) =~= page_ids@);
        let reached = match self.limit {
            Some(l) => self.release_ids.len() >= l as usize,
            None => false,
        };
        if reached {
            let l = self.limit.unwrap();
            self.release_ids.truncate(l as usize);
            self.finished = true;
        } else if self.next_page >= total_pages {
            self.finished = true;
        } else {
            self.next_page = self.next_page + 1;
        }
    }

    /// The release ids collected so far, in page order.
    pub fn release_ids(&self) -> (r: &Vec<u64>)
        ensures
            r@ == self@.ids,
    {
        &self.release_ids
    }
}

/// The release ids of `listings`, in order.
pub fn release_ids_of(listings: &Vec<Listing>) -> (r: Vec<u64>)
    ensures
        r@ == listings@.map_values(|l: Listing| l.release.id),
{
    let mut ids: Vec<u64> = Vec::new();
    let mut i: usize = 0;
    while i < listings.len()
        invariant
            i <= listings@.len(),
            ids@ == listings@.take(i as int).map_values(|l: Listing| l.release.id),
        decreases listings@.len() - i,
    {
        ids.push(listings[i].release.id);
        i = i + 1;
        assert(listings@.take(i as int) =~= listings@.take(i - 1).push(listings@[i - 1]));
    }
    assert(listings@.take(i as int) =~= listings@);
    ids
}

impl PageSummary {
    /// What the scrape job needs of an inventory page.
    pub fn from_response(r: &InventoryResponse) -> (s: PageSummary)
        ensures
            s.release_ids@ == r.listings@.map_values(|l: Listing| l.release.id),
            s.items == r.pagination.items,
            s.pages == r.pagination.pages,
    {
        PageSummary {
            release_ids: release_ids_of(&r.listings),
            items: r.pagination.items,
            pages: r.pagination.pages,
        }
    }
}

} // verus!
