//! Pagination: which page is shown, which navigation controls are offered and
//! where a page starts and ends.

use vstd::prelude::*;

verus! {

/// Manages pagination and displays its controls
#[derive(Debug, Clone, Copy)]
pub struct Paginator {
    /// Holds which page (index) we're currently on.
    page_index: usize,
    /// The total number of items being paginated
    total_count: usize,
    /// The number of items per page
    items_per_page: usize,
}

/// The state of a [`Paginator`]
pub struct PaginatorView {
    pub page_index: usize,
    pub total_count: usize,
    pub items_per_page: usize,
}

impl View for Paginator {
    type V = PaginatorView;

    closed spec fn view(&self) -> PaginatorView {
        PaginatorView {
            page_index: self.page_index,
            total_count: self.total_count,
            items_per_page: self.items_per_page,
        }
    }
}

/// The navigation controls of the paginator, in the order in which they are
/// drawn
#[derive(Debug, Clone, Copy, PartialEq, Eq)]
pub enum PageNavigation {
    /// Move to the first page
    First,
    /// Move to the previous page
    Previous,
    /// The button for two pages before the current one
    TwoBack,
    /// The button for one page before the current one
    OneBack,
    /// The button for one page after the current one
    OneForward,
    /// The button for two pages after the current one
    TwoForward,
    /// Move to the next page
    Next,
    /// Move to the last page
    Last,
}

/// The index of the last page: the number of items divided by the items per
/// page
pub open spec fn max_page_index_of(p: PaginatorView) -> int {
    p.total_count as int / p.items_per_page as int
}

/// The paginator can be drawn: pages hold at least one item and the current
/// page exists
pub open spec fn paginator_ready(p: PaginatorView) -> bool {
    p.items_per_page > 0 && p.page_index <= max_page_index_of(p)
}

/// Whether the control is drawn (a clickable button) on page `page` of a
/// paginator whose last page is `max`
pub open spec fn control_offered(nav: PageNavigation, page: int, max: int) -> bool {
    match nav {
        PageNavigation::TwoBack => page >= 2,
        PageNavigation::OneBack => page >= 1,
        PageNavigation::OneForward => max - page > 0,
        PageNavigation::TwoForward => max - page > 1,
        _ => true,
    }
}

/// The page shown after the control is clicked on page `page`
pub open spec fn page_after(nav: PageNavigation, page: int, max: int) -> int {
    match nav {
        PageNavigation::First => 0,
        PageNavigation::Previous => if page >= 1 {
            page - 1
        } else {
            0
        },
        PageNavigation::TwoBack => page - 2,
        PageNavigation::OneBack => page - 1,
        PageNavigation::OneForward => page + 1,
        PageNavigation::TwoForward => page + 2,
        PageNavigation::Next => if page + 1 <= max {
            page + 1
        } else {
            max
        },
        PageNavigation::Last => max,
    }
}

/// The first item of page `page` and one past its last item
pub open spec fn page_bounds_of(page: int, total: int, per_page: int) -> (int, int) {
    let start = page * per_page;
    (start, if start + per_page <= total {
        start + per_page
    } else {
        total
    })
}

impl Paginator {
    /// A paginator on the given page
    pub fn new(page_index: usize, total_count: usize, items_per_page: usize) -> (p: Self)
        ensures
            p@.page_index == page_index,
            p@.total_count == total_count,
            p@.items_per_page == items_per_page,
    {
        Paginator { page_index, total_count, items_per_page }
    }

    /// The index of the page shown
    pub fn page_index(&self) -> (page_index: usize)
        ensures
            page_index == self@.page_index,
    {
        self.page_index
    }

    /// Show another page
    pub fn set_page_index(&mut self, page_index: usize)
        ensures
            final(self)@.page_index == page_index,
            final(self)@.total_count == old(self)@.total_count,
            final(self)@.items_per_page == old(self)@.items_per_page,
    {
        self.page_index = page_index
    }

    /// The number of items paginated
    pub fn total_count(&self) -> (total_count: usize)
        ensures
            total_count == self@.total_count,
    {
        self.total_count
    }

    /// Change the number of items paginated
    pub fn set_total_count(&mut self, total_count: usize)
        ensures
            final(self)@.total_count == total_count,
            final(self)@.page_index == old(self)@.page_index,
            final(self)@.items_per_page == old(self)@.items_per_page,
    {
        self.total_count = total_count
    }

    /// The number of items on a page
    pub fn items_per_page(&self) -> (items_per_page: usize)
        ensures
            items_per_page == self@.items_per_page,
    {
        self.items_per_page
    }

    /// Change the number of items on a page
    pub fn set_items_per_page(&mut self, items_per_page: usize)
        ensures
            final(self)@.items_per_page == items_per_page,
            final(self)@.page_index == old(self)@.page_index,
            final(self)@.total_count == old(self)@.total_count,
    {
        self.items_per_page = items_per_page
    }

    /// The index of the last page
    pub fn max_page_index(&self) -> (max: usize)
        requires
            self@.items_per_page > 0,
        ensures
            max == max_page_index_of(self@),
    {
        self.total_count / self.items_per_page
    }

    /// Whether the navigation control is drawn as a clickable button
    pub fn offers(&self, nav: PageNavigation) -> (offered: bool)
        requires
            paginator_ready(self@),
        ensures
            offered == control_offered(nav, self@.page_index as int, max_page_index_of(self@)),
    {
        let max = self.total_count / self.items_per_page;
        match nav {
            PageNavigation::TwoBack => self.page_index >= 2,
            PageNavigation::OneBack => self.page_index >= 1,
            PageNavigation::OneForward => max - self.page_index > 0,
            PageNavigation::TwoForward => max - self.page_index > 1,
            _ => true,
        }
    }

    /// Act upon a click on a navigation control
    pub fn navigate(&mut self, nav: PageNavigation)
        requires
            paginator_ready(old(self)@),
            control_offered(nav, old(self)@.page_index as int, max_page_index_of(old(self)@)),
        ensures
            final(self)@.page_index == page_after(
                nav,
                old(self)@.page_index as int,
                max_page_index_of(old(self)@),
            ),
            final(self)@.total_count == old(self)@.total_count,
            final(self)@.items_per_page == old(self)@.items_per_page,
    {
        let max = self.total_count / self.items_per_page;
        match nav {
            PageNavigation::First => self.page_index = 0,
            PageNavigation::Previous => self.page_index = self.page_index.saturating_sub(1),
            PageNavigation::TwoBack => self.page_index = self.page_index - 2,
            PageNavigation::OneBack => self.page_index = self.page_index - 1,
            PageNavigation::OneForward => self.page_index = self.page_index + 1,
            PageNavigation::TwoForward => self.page_index = self.page_index + 2,
            PageNavigation::Next => {
                self.page_index = if self.page_index < max {
                    self.page_index + 1
                } else {
                    max
                }
            },
            PageNavigation::Last => self.page_index = max,
        }
    }

    /// The items of the current page: the index of its first item and one past
    /// its last
    pub fn page_bounds(&self) -> (bounds: (usize, usize))
        requires
            paginator_ready(self@),
        ensures
            bounds.0 == page_bounds_of(
                self@.page_index as int,
                self@.total_count as int,
                self@.items_per_page as int,
            ).0,
            bounds.1 == page_bounds_of(
                self@.page_index as int,
                self@.total_count as int,
                self@.items_per_page as int,
            ).1,
            bounds.0 <= bounds.1 <= self@.total_count,
    {
        proof {
            lemma_page_start_within_total(self@);
        }
        let offset = self.page_index * self.items_per_page;
        let remaining = self.total_count - offset;
        let upper = if self.items_per_page <= remaining {
            offset + self.items_per_page
        } else {
            self.total_count
        };
        (offset, upper)
    }
}

/// The first item of an existing page lies within the items
pub proof fn lemma_page_start_within_total(p: PaginatorView)
    requires
        paginator_ready(p),
    ensures
        p.page_index * p.items_per_page <= p.total_count,
{
    let max = max_page_index_of(p);
    assert(p.page_index * p.items_per_page <= max * p.items_per_page) by (nonlinear_arith)
        requires
            p.page_index <= max,
            p.items_per_page > 0,
    ;
    assert(max * p.items_per_page <= p.total_count) by (nonlinear_arith)
        requires
            max == p.total_count as int / p.items_per_page as int,
            p.items_per_page > 0,
    ;
}

/// Every navigation control that is offered leads to an existing page
pub proof fn law_navigation_stays_within_pages(nav: PageNavigation, page: int, max: int)
    requires
        0 <= page <= max,
        control_offered(nav, page, max),
    ensures
        0 <= page_after(nav, page, max) <= max,
{
}

/// Moving to the next page and then to the previous one returns to where one
/// was, unless one was already on the last page
pub proof fn law_next_then_previous_returns(page: int, max: int)
    requires
        0 <= page < max,
    ensures
        page_after(PageNavigation::Previous, page_after(PageNavigation::Next, page, max), max)
            == page,
{
}

/// Moving to the first or last page twice is the same as moving there once
pub proof fn law_first_and_last_are_idempotent(page: int, max: int)
    ensures
        page_after(PageNavigation::First, page_after(PageNavigation::First, page, max), max)
            == page_after(PageNavigation::First, page, max),
        page_after(PageNavigation::Last, page_after(PageNavigation::Last, page, max), max)
            == page_after(PageNavigation::Last, page, max),
{
}

/// The pages cover the items without gap or overlap: each page ends where the
/// next one starts, the first starts at the first item and the last page ends
/// at the last item
pub proof fn law_pages_tile_the_items(page: int, total: int, per_page: int)
    requires
        per_page > 0,
        total >= 0,
        0 <= page <= total / per_page,
    ensures
        page_bounds_of(0, total, per_page).0 == 0,
        page < total / per_page ==> page_bounds_of(page, total, per_page).1 == page_bounds_of(
            page + 1,
            total,
            per_page,
        ).0,
        page_bounds_of(total / per_page, total, per_page).1 == total,
        page_bounds_of(page, total, per_page).0 <= page_bounds_of(page, total, per_page).1,
{
    let max = total / per_page;
    assert((page + 1) * per_page == page * per_page + per_page) by (nonlinear_arith);
    assert(page < max ==> (page + 1) * per_page <= max * per_page) by (nonlinear_arith)
        requires
            per_page > 0,
    ;
    assert(max * per_page <= total && total < max * per_page + per_page) by (nonlinear_arith)
        requires
            max == total / per_page,
            per_page > 0,
    ;
    assert(page * per_page <= max * per_page) by (nonlinear_arith)
        requires
            page <= max,
            per_page > 0,
    ;
}

/// Each numbered control moves by the number of pages it stands for, the
/// outer controls go to the first and the last page, and "previous" and
/// "next" move by one page without leaving the pages
pub proof fn law_controls_move_by_their_numbers(page: int, max: int)
    requires
        0 <= page <= max,
    ensures
        page_after(PageNavigation::TwoBack, page, max) == page - 2,
        page_after(PageNavigation::OneBack, page, max) == page - 1,
        page_after(PageNavigation::OneForward, page, max) == page + 1,
        page_after(PageNavigation::TwoForward, page, max) == page + 2,
        page_after(PageNavigation::First, page, max) == 0,
        page_after(PageNavigation::Last, page, max) == max,
        page >= 1 ==> page_after(PageNavigation::Previous, page, max) == page - 1,
        page == 0 ==> page_after(PageNavigation::Previous, page, max) == 0,
        page < max ==> page_after(PageNavigation::Next, page, max) == page + 1,
        page == max ==> page_after(PageNavigation::Next, page, max) == max,
{
}

/// Two pages back is one page back twice, and two pages forward is one page
/// forward twice; "previous" and "next" agree with the one-page controls
/// where those are offered
pub proof fn law_two_steps_are_one_step_twice(page: int, max: int)
    requires
        0 <= page <= max,
    ensures
        control_offered(PageNavigation::TwoBack, page, max) ==> page_after(
            PageNavigation::TwoBack,
            page,
            max,
        ) == page_after(
            PageNavigation::OneBack,
            page_after(PageNavigation::OneBack, page, max),
            max,
        ),
        control_offered(PageNavigation::TwoForward, page, max) ==> page_after(
            PageNavigation::TwoForward,
            page,
            max,
        ) == page_after(
            PageNavigation::OneForward,
            page_after(PageNavigation::OneForward, page, max),
            max,
        ),
        control_offered(PageNavigation::OneBack, page, max) ==> page_after(
            PageNavigation::Previous,
            page,
            max,
        ) == page_after(PageNavigation::OneBack, page, max),
        control_offered(PageNavigation::OneForward, page, max) ==> page_after(
            PageNavigation::Next,
            page,
            max,
        ) == page_after(PageNavigation::OneForward, page, max),
{
}

/// A numbered control is offered exactly when the page it leads to exists
pub proof fn law_numbered_controls_lead_to_existing_pages(page: int, max: int)
    requires
        0 <= page <= max,
    ensures
        control_offered(PageNavigation::TwoBack, page, max) <==> 0 <= page_after(
            PageNavigation::TwoBack,
            page,
            max,
        ) <= max,
        control_offered(PageNavigation::OneBack, page, max) <==> 0 <= page_after(
            PageNavigation::OneBack,
            page,
            max,
        ) <= max,
        control_offered(PageNavigation::OneForward, page, max) <==> 0 <= page_after(
            PageNavigation::OneForward,
            page,
            max,
        ) <= max,
        control_offered(PageNavigation::TwoForward, page, max) <==> 0 <= page_after(
            PageNavigation::TwoForward,
            page,
            max,
        ) <= max,
        control_offered(PageNavigation::First, page, max),
        control_offered(PageNavigation::Previous, page, max),
        control_offered(PageNavigation::Next, page, max),
        control_offered(PageNavigation::Last, page, max),
{
}

/// The last page is the one that holds the last items: before it every page
/// is full, and it holds fewer items than a full page (none when the items
/// fill the pages before it exactly)
pub proof fn law_last_page_holds_the_rest(p: PaginatorView, page: int)
    requires
        p.items_per_page > 0,
        0 <= page < max_page_index_of(p),
    ensures
        max_page_index_of(p) * p.items_per_page <= p.total_count,
        p.total_count < (max_page_index_of(p) + 1) * p.items_per_page,
        page_bounds_of(page, p.total_count as int, p.items_per_page as int).1 - page_bounds_of(
            page,
            p.total_count as int,
            p.items_per_page as int,
        ).0 == p.items_per_page,
{
    let max = max_page_index_of(p);
    let per = p.items_per_page as int;
    let total = p.total_count as int;
    assert(max * per <= total && total < max * per + per) by (nonlinear_arith)
        requires
            max == total / per,
            per > 0,
    ;
    assert((max + 1) * per == max * per + per) by (nonlinear_arith);
    assert(page * per + per <= max * per) by (nonlinear_arith)
        requires
            page < max,
            per > 0,
    ;
}

} // verus!
