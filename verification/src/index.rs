//! The listing of a directory's pages, newest first.

use vstd::prelude::*;
use crate::date::Date;
use crate::page::PageMetadata;

verus! {

/// Whether a page dated `a` is listed strictly before a page dated `b`:
/// later dates come first, and pages without a date come last.
pub open spec fn lists_before(a: Option<Date>, b: Option<Date>) -> bool {
    match (a, b) {
        (Some(first), Some(second)) => second.is_before(first),
        (Some(_), None) => true,
        _ => false,
    }
}

/// Whether neither of two pages is listed strictly before the other: they
/// bear the same date, or both bear none.
pub open spec fn same_rank(a: Option<Date>, b: Option<Date>) -> bool {
    !lists_before(a, b) && !lists_before(b, a)
}

/// Whether no page of a listing stands behind one that it should precede.
pub open spec fn is_ordered(pages: Seq<PageMetadata>) -> bool {
    forall|i: int, j: int|
        0 <= i < j < pages.len() ==> !lists_before(#[trigger] pages[j].date, #[trigger] pages[i].date)
}

/// Whether `sorted` holds exactly the pages of `pages`, `sorted[i]` being
/// `pages[order[i]]`, in listing order, with pages of the same rank in the
/// order in which `pages` has them.
pub open spec fn is_stable_sort_of(
    sorted: Seq<PageMetadata>,
    pages: Seq<PageMetadata>,
    order: Seq<int>,
) -> bool {
    &&& sorted.len() == pages.len()
    &&& order.len() == pages.len()
    &&& forall|i: int| 0 <= i < order.len() ==> 0 <= #[trigger] order[i] < pages.len()
    &&& forall|i: int, j: int|
        0 <= i < j < order.len() ==> #[trigger] order[i] != #[trigger] order[j]
    &&& forall|i: int| 0 <= i < sorted.len() ==> #[trigger] sorted[i] == pages[order[i]]
    &&& is_ordered(sorted)
    &&& forall|i: int, j: int|
        0 <= i < j < sorted.len() && same_rank(sorted[i].date, sorted[j].date) ==> #[trigger] order[i]
            < #[trigger] order[j]
}

/// Whether a page dated `a` is listed strictly before a page dated `b`.
pub fn listed_before(a: &Option<Date>, b: &Option<Date>) -> (before: bool)
    ensures
        before == lists_before(*a, *b),
{
    match (a, b) {
        (Some(first), Some(second)) => second.before(first),
        (Some(_), None) => true,
        _ => false,
    }
}

/// The pages of one directory in the order in which its index lists them.
#[derive(Debug)]
pub struct DirectoryIndex {
    pages: Vec<PageMetadata>,
}

impl View for DirectoryIndex {
    type V = Seq<PageMetadata>;

    closed spec fn view(&self) -> Seq<PageMetadata> {
        self.pages@
    }
}

impl DirectoryIndex {
    /// Every index is in listing order.
    #[verifier::type_invariant]
    spec fn ordered(self) -> bool {
        is_ordered(self.pages@)
    }

    /// The listed pages, first to last.
    pub fn pages(&self) -> (pages: &Vec<PageMetadata>)
        ensures
            pages@ == self@,
            is_ordered(pages@),
    {
        proof {
            use_type_invariant(self);
        }
        &self.pages
    }

    /// Hands the listed pages out, first to last.
    pub fn into_pages(self) -> (pages: Vec<PageMetadata>)
        ensures
            pages@ == self@,
            is_ordered(pages@),
    {
        proof {
            use_type_invariant(&self);
        }
        self.pages
    }

    /// The first position of an ordered listing whose page is not listed
    /// strictly before a page dated `date`.
    fn insertion_point(sorted: &Vec<PageMetadata>, date: &Option<Date>) -> (at: usize)
        requires
            is_ordered(sorted@),
        ensures
            at <= sorted.len(),
            forall|k: int| 0 <= k < at ==> lists_before(#[trigger] sorted[k].date, *date),
            forall|k: int| at <= k < sorted.len() ==> !lists_before(#[trigger] sorted[k].date, *date),
    {
        let mut at: usize = 0;
        while at < sorted.len() && listed_before(&sorted[at].date, date)
            invariant
                at <= sorted.len(),
                forall|k: int| 0 <= k < at ==> lists_before(#[trigger] sorted[k].date, *date),
            decreases sorted.len() - at,
        {
            at += 1;
        }
        at
    }

    /// Lists pages newest first. Pages without a date follow all dated
    /// ones; pages with the same date, and pages without one, keep the order
    /// in which they were given.
    pub fn from_pages(pages: Vec<PageMetadata>) -> (index: DirectoryIndex)
        ensures
            exists|order: Seq<int>| is_stable_sort_of(index@, pages@, order),
    {
        let ghost given = pages@;
        let mut rest = pages;
        let mut sorted: Vec<PageMetadata> = Vec::new();
        let ghost mut order: Seq<int> = Seq::empty();
        while rest.len() > 0
            invariant
                rest@ == given.take(rest.len() as int),
                rest.len() <= given.len(),
                sorted.len() + rest.len() == given.len(),
                order.len() == sorted.len(),
                forall|i: int| 0 <= i < order.len() ==> rest.len() <= #[trigger] order[i] < given.len(),
                forall|i: int, j: int|
                    0 <= i < j < order.len() ==> #[trigger] order[i] != #[trigger] order[j],
                forall|i: int| 0 <= i < sorted.len() ==> #[trigger] sorted[i] == given[order[i]],
                is_ordered(sorted@),
                forall|i: int, j: int|
                    0 <= i < j < sorted.len() && same_rank(sorted[i].date, sorted[j].date)
                        ==> #[trigger] order[i] < #[trigger] order[j],
            decreases rest.len(),
        {
            let ghost source = rest.len() - 1;
            let ghost before = sorted@;
            let ghost before_order = order;
            let page = rest.pop().unwrap();
            assert(page == given[source]);
            let at = DirectoryIndex::insertion_point(&sorted, &page.date);
            sorted.insert(at, page);
            proof {
                order = before_order.insert(at as int, source);
                assert forall|i: int| 0 <= i < sorted.len() implies #[trigger] sorted[i]
                    == given[order[i]] by {
                    if i < at {
                        assert(sorted[i] == before[i]);
                    } else if i > at {
                        assert(sorted[i] == before[i - 1]);
                    }
                }
                assert forall|i: int, j: int| 0 <= i < j < sorted.len() implies !lists_before(
                    #[trigger] sorted[j].date,
                    #[trigger] sorted[i].date,
                ) by {
                    let a = if i < at { before[i] } else if i == at { page } else { before[i - 1] };
                    let b = if j < at { before[j] } else if j == at { page } else { before[j - 1] };
                    assert(sorted[i] == a && sorted[j] == b);
                }
                assert forall|i: int, j: int|
                    0 <= i < j < sorted.len() && same_rank(
                        sorted[i].date,
                        sorted[j].date,
                    ) implies #[trigger] order[i] < #[trigger] order[j] by {
                    let a = if i < at { before[i] } else if i == at { page } else { before[i - 1] };
                    let b = if j < at { before[j] } else if j == at { page } else { before[j - 1] };
                    assert(sorted[i] == a && sorted[j] == b);
                }
            }
        }
        assert(given.take(0) =~= Seq::<PageMetadata>::empty());
        let index = DirectoryIndex { pages: sorted };
        assert(is_stable_sort_of(index@, given, order));
        index
    }
}

/// Where every page bears a date and no two pages bear the same, the
/// listing is strictly descending by date.
pub proof fn lemma_distinct_dates_strictly_descending(
    sorted: Seq<PageMetadata>,
    pages: Seq<PageMetadata>,
    order: Seq<int>,
)
    requires
        is_stable_sort_of(sorted, pages, order),
        forall|i: int| 0 <= i < pages.len() ==> (#[trigger] pages[i]).date is Some,
        forall|i: int, j: int|
            0 <= i < j < pages.len() ==> (#[trigger] pages[i]).date != (#[trigger] pages[j]).date,
    ensures
        forall|i: int, j: int|
            0 <= i < j < sorted.len() ==> (#[trigger] sorted[j]).date->0.is_before(
                (#[trigger] sorted[i]).date->0,
            ),
{
    assert forall|i: int, j: int| 0 <= i < j < sorted.len() implies (#[trigger] sorted[j]).date->0.is_before(
        (#[trigger] sorted[i]).date->0,
    ) by {
        let a = order[i];
        let b = order[j];
        assert(sorted[i] == pages[a] && sorted[j] == pages[b]);
        assert(a != b);
        if a < b {
            assert(pages[a].date != pages[b].date);
        } else {
            assert(pages[b].date != pages[a].date);
        }
        assert(!lists_before(sorted[j].date, sorted[i].date));
    }
}

/// Pages that bear the same date, and pages that bear none, are listed in
/// the order in which they were given.
pub proof fn lemma_equal_dates_keep_their_order(
    sorted: Seq<PageMetadata>,
    pages: Seq<PageMetadata>,
    order: Seq<int>,
    i: int,
    j: int,
)
    requires
        is_stable_sort_of(sorted, pages, order),
        0 <= i < j < sorted.len(),
        sorted[i].date == sorted[j].date,
    ensures
        order[i] < order[j],
        sorted[i] == pages[order[i]],
        sorted[j] == pages[order[j]],
{
}

} // verus!
