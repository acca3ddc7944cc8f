//! The counts tables (timelines with their entity counts): which ordering is
//! active after a click on a column header, and which rows pass the filter.

use crate::paginator::{
    control_offered, max_page_index_of, page_after, page_bounds_of, paginator_ready, PageNavigation,
    Paginator, PaginatorView,
};
use vstd::prelude::*;

verus! {

/// Ordering by a number
#[derive(Debug, Clone, Copy, PartialEq, Eq, Structural)]
pub enum SortByNumber {
    Ascending,
    Descending,
}

/// Ordering by a name
#[derive(Debug, Clone, Copy, PartialEq, Eq, Structural)]
pub enum SortAlphabetically {
    AToZ,
    ZToA,
}

/// The ordering of a counts table: by count, by name, or neither
#[derive(Debug, Clone, Copy, PartialEq, Eq, Structural)]
pub struct TableOrdering {
    pub count_ordering: Option<SortByNumber>,
    pub name_ordering: Option<SortAlphabetically>,
}

/// The next ordering by count when its header is clicked: none, ascending,
/// descending, and none again
pub open spec fn next_count_ordering(o: Option<SortByNumber>) -> Option<SortByNumber> {
    match o {
        None => Some(SortByNumber::Ascending),
        Some(SortByNumber::Ascending) => Some(SortByNumber::Descending),
        Some(SortByNumber::Descending) => None,
    }
}

/// The next ordering by name when its header is clicked: none, A to Z, Z to
/// A, and none again
pub open spec fn next_name_ordering(o: Option<SortAlphabetically>) -> Option<SortAlphabetically> {
    match o {
        None => Some(SortAlphabetically::AToZ),
        Some(SortAlphabetically::AToZ) => Some(SortAlphabetically::ZToA),
        Some(SortAlphabetically::ZToA) => None,
    }
}

impl TableOrdering {
    /// No ordering
    pub fn new() -> (o: Self)
        ensures
            o.count_ordering is None,
            o.name_ordering is None,
    {
        TableOrdering { count_ordering: None, name_ordering: None }
    }

    /// The count header was clicked: the name ordering is dropped and the
    /// count ordering moves on.  Returns that the rows are to be sorted anew.
    pub fn count_header_clicked(&mut self) -> (sort_needs_updating: bool)
        ensures
            sort_needs_updating,
            *final(self) == after_count_click(*old(self)),
    {
        self.name_ordering = None;
        self.count_ordering = match self.count_ordering {
            None => Some(SortByNumber::Ascending),
            Some(SortByNumber::Ascending) => Some(SortByNumber::Descending),
            Some(SortByNumber::Descending) => None,
        };
        true
    }

    /// The name header was clicked: the count ordering is dropped and the
    /// name ordering moves on.  Returns that the rows are to be sorted anew.
    pub fn name_header_clicked(&mut self) -> (sort_needs_updating: bool)
        ensures
            sort_needs_updating,
            *final(self) == after_name_click(*old(self)),
    {
        self.count_ordering = None;
        self.name_ordering = match self.name_ordering {
            None => Some(SortAlphabetically::AToZ),
            Some(SortAlphabetically::AToZ) => Some(SortAlphabetically::ZToA),
            Some(SortAlphabetically::ZToA) => None,
        };
        true
    }
}

/// The ordering after a click on the count header
pub open spec fn after_count_click(o: TableOrdering) -> TableOrdering {
    TableOrdering { count_ordering: next_count_ordering(o.count_ordering), name_ordering: None }
}

/// The ordering after a click on the name header
pub open spec fn after_name_click(o: TableOrdering) -> TableOrdering {
    TableOrdering { count_ordering: None, name_ordering: next_name_ordering(o.name_ordering) }
}

/// At most one of the orderings is active after a header click, and three
/// clicks on the same header leave the table unordered or ordered as before
/// by that header alone
pub proof fn law_one_ordering_at_a_time(o: TableOrdering)
    ensures
        !(after_count_click(o).count_ordering is Some && after_count_click(o).name_ordering is Some),
        !(after_name_click(o).count_ordering is Some && after_name_click(o).name_ordering is Some),
        after_count_click(after_count_click(after_count_click(o))).count_ordering
            == o.count_ordering,
        after_name_click(after_name_click(after_name_click(o))).name_ordering == o.name_ordering,
{
}

/// The ASCII lowercase form of a char (`char::to_ascii_lowercase`)
pub open spec fn ascii_lower(c: char) -> char {
    if 'A' <= c && c <= 'Z' {
        ((c as int) + 32) as char
    } else {
        c
    }
}

/// The ASCII lowercase form of a text (`str::to_ascii_lowercase`)
pub open spec fn ascii_lowercase(s: Seq<char>) -> Seq<char> {
    s.map_values(|c: char| ascii_lower(c))
}

/// `needle` occurs in `hay` at index `at`
pub open spec fn occurs_at(hay: Seq<char>, needle: Seq<char>, at: int) -> bool {
    0 <= at && at + needle.len() <= hay.len() && hay.subrange(at, at + needle.len()) == needle
}

/// `needle` occurs somewhere in `hay` (`str::contains`)
pub open spec fn contains_text(hay: Seq<char>, needle: Seq<char>) -> bool {
    exists|at: int| occurs_at(hay, needle, at)
}

/// The row of `name` passes the filter: the filter text occurs in the name,
/// ignoring ASCII case
pub open spec fn passes_filter(name: Seq<char>, filter: Seq<char>) -> bool {
    contains_text(ascii_lowercase(name), ascii_lowercase(filter))
}

fn lower_char(c: char) -> (l: char)
    ensures
        l == ascii_lower(c),
{
    if 'A' <= c && c <= 'Z' {
        char_from_ascii_code((c as u32) + 32)
    } else {
        c
    }
}

/// The char of an ASCII lowercase letter's code
fn char_from_ascii_code(code: u32) -> (c: char)
    requires
        97 <= code <= 122,
    ensures
        c as int == code,
{
    let b = code as u8;
    b as char
}

/// The ASCII lowercase form of the chars
fn lowercase_chars(s: &Vec<char>) -> (l: Vec<char>)
    ensures
        l@ == ascii_lowercase(s@),
{
    let mut l: Vec<char> = Vec::new();
    for i in 0..s.len()
        invariant
            l@ == ascii_lowercase(s@).take(i as int),
    {
        l.push(lower_char(s[i]));
        proof {
            assert(l@ =~= ascii_lowercase(s@).take(i + 1));
        }
    }
    proof {
        assert(l@ =~= ascii_lowercase(s@));
    }
    l
}

/// Whether `needle` occurs in `hay` at index `at`
fn occurs_at_exec(hay: &Vec<char>, needle: &Vec<char>, at: usize) -> (found: bool)
    requires
        at + needle.len() <= hay.len(),
    ensures
        found == occurs_at(hay@, needle@, at as int),
{
    for k in 0..needle.len()
        invariant
            at + needle.len() <= hay.len(),
            forall|j: int| 0 <= j < k ==> hay@[at + j] == needle@[j],
    {
        if hay[at + k] != needle[k] {
            proof {
                assert(hay@.subrange(at as int, at + needle.len())[k as int] != needle@[k as int]);
            }
            return false;
        }
    }
    proof {
        assert(hay@.subrange(at as int, at + needle.len()) =~= needle@);
    }
    true
}

/// Whether `needle` occurs in `hay`
fn contains_exec(hay: &Vec<char>, needle: &Vec<char>) -> (found: bool)
    ensures
        found == contains_text(hay@, needle@),
{
    if needle.len() == 0 {
        proof {
            assert(hay@.subrange(0, 0) =~= needle@);
            assert(occurs_at(hay@, needle@, 0));
        }
        return true;
    }
    if needle.len() > hay.len() {
        return false;
    }
    let last = hay.len() - needle.len();
    let mut at: usize = 0;
    while at <= last
        invariant
            last + needle.len() == hay.len(),
            needle.len() > 0,
            forall|j: int| 0 <= j < at ==> !occurs_at(hay@, needle@, j),
        decreases last + 1 - at,
    {
        if occurs_at_exec(hay, needle, at) {
            return true;
        }
        at = at + 1;
    }
    proof {
        assert forall|j: int| !occurs_at(hay@, needle@, j) by {
            if 0 <= j < at {
            }
        }
    }
    false
}

/// Whether the name passes the filter: `name.to_ascii_lowercase()` contains
/// `filter.to_ascii_lowercase()`
pub fn name_passes_filter(name: &str, filter: &str) -> (passes: bool)
    ensures
        passes == passes_filter(name@, filter@),
{
    let n = lowercase_chars(&crate::helpers::chars_of(name));
    let f = lowercase_chars(&crate::helpers::chars_of(filter));
    contains_exec(&n, &f)
}

/// Whether `rows` is what filtering the rows named `names` gives: the
/// indices, in order, of the rows whose names pass the filter, or `None` when
/// no row passes
pub open spec fn is_filtered(names: Seq<String>, filter: Seq<char>, rows: Option<Seq<usize>>) -> bool {
    match rows {
        None => forall|i: int| 0 <= i < names.len() ==> !passes_filter(#[trigger] names[i]@, filter),
        Some(rows) => {
            &&& rows.len() > 0
            &&& forall|k: int| 0 <= k < rows.len() ==> (#[trigger] rows[k]) < names.len()
                && passes_filter(names[rows[k] as int]@, filter)
            &&& forall|k: int, m: int| 0 <= k < m < rows.len() ==> rows[k] < rows[m]
            &&& forall|i: int|
                0 <= i < names.len() && passes_filter(#[trigger] names[i]@, filter)
                    ==> rows.contains(i as usize)
        },
    }
}

/// The indices held, if any
pub open spec fn rows_view(rows: Option<Vec<usize>>) -> Option<Seq<usize>> {
    match rows {
        Some(r) => Some(r@),
        None => None,
    }
}

/// The rows whose names pass the filter, as indices in order, or `None` when
/// no row passes
pub fn filter_rows(names: &Vec<String>, filter: &str) -> (rows: Option<Vec<usize>>)
    ensures
        is_filtered(names@, filter@, rows_view(rows)),
{
    let mut rows: Vec<usize> = Vec::new();
    for i in 0..names.len()
        invariant
            forall|k: int| 0 <= k < rows.len() ==> (#[trigger] rows@[k]) < i && passes_filter(
                names@[rows@[k] as int]@,
                filter@,
            ),
            forall|k: int, m: int| 0 <= k < m < rows.len() ==> rows@[k] < rows@[m],
            forall|j: int|
                0 <= j < i && passes_filter(#[trigger] names@[j]@, filter@) ==> rows@.contains(
                    j as usize,
                ),
    {
        if name_passes_filter(names[i].as_str(), filter) {
            let ghost before = rows@;
            rows.push(i);
            proof {
                assert forall|j: int|
                    0 <= j < i + 1 && passes_filter(#[trigger] names@[j]@, filter@) implies rows@.contains(
                    j as usize,
                ) by {
                    if j < i {
                        let k = choose|k: int| 0 <= k < before.len() && before[k] == j as usize;
                        assert(rows@[k] == j as usize);
                    } else {
                        assert(rows@[rows.len() - 1] == i);
                    }
                }
            }
        }
    }
    if rows.len() == 0 {
        proof {
            assert forall|i: int| 0 <= i < names.len() implies !passes_filter(
                #[trigger] names@[i]@,
                filter@,
            ) by {
                if passes_filter(names@[i]@, filter@) {
                    assert(rows@.contains(i as usize));
                }
            }
        }
        None
    } else {
        Some(rows)
    }
}

/// An empty filter lets every row pass
pub proof fn law_empty_filter_passes_everything(name: Seq<char>)
    ensures
        passes_filter(name, Seq::empty()),
{
    assert(ascii_lowercase(Seq::<char>::empty()) =~= Seq::<char>::empty());
    assert(ascii_lowercase(name).subrange(0, 0) =~= Seq::<char>::empty());
    assert(occurs_at(ascii_lowercase(name), Seq::empty(), 0));
}

/// Case does not matter: a name passes the filter exactly when it passes its
/// lowercase form
pub proof fn law_filter_ignores_case(name: Seq<char>, filter: Seq<char>)
    ensures
        passes_filter(name, filter) == passes_filter(name, ascii_lowercase(filter)),
{
    assert(ascii_lowercase(ascii_lowercase(filter)) =~= ascii_lowercase(filter));
}

/// What a row of a counts table, or the panel around it, asks of the app:
/// a window for a new item, or the view or edit window of an existing one
#[derive(Debug, Clone, Copy, PartialEq, Eq)]
pub enum EntityOrTimelineActionRequest<Id> {
    CreateNew,
    ViewExisting(Id),
    EditExisting(Id),
}

/// The requests that the buttons of a row send, in the order of the buttons:
/// edit, then view, each with the row's id
pub open spec fn row_requests_spec<Id>(edit_clicked: bool, view_clicked: bool, id: Id) -> Seq<
    EntityOrTimelineActionRequest<Id>,
> {
    let edit = if edit_clicked {
        seq![EntityOrTimelineActionRequest::EditExisting(id)]
    } else {
        Seq::empty()
    };
    let view = if view_clicked {
        seq![EntityOrTimelineActionRequest::ViewExisting(id)]
    } else {
        Seq::empty()
    };
    edit + view
}

/// The requests that the edit and view buttons of the row of item `id` send
/// when clicked
pub fn row_requests<Id: Copy>(edit_clicked: bool, view_clicked: bool, id: Id) -> (requests: Vec<
    EntityOrTimelineActionRequest<Id>,
>)
    ensures
        requests@ == row_requests_spec(edit_clicked, view_clicked, id),
{
    let mut requests: Vec<EntityOrTimelineActionRequest<Id>> = Vec::new();
    if edit_clicked {
        requests.push(EntityOrTimelineActionRequest::EditExisting(id));
    }
    if view_clicked {
        requests.push(EntityOrTimelineActionRequest::ViewExisting(id));
    }
    proof {
        assert(requests@ =~= row_requests_spec(edit_clicked, view_clicked, id));
    }
    requests
}

/// A counts table: the names of its rows once they have been fetched, the
/// filter typed by the user, the rows that pass it and the pagination
pub struct CountsTable {
    names: Option<Vec<String>>,
    filter_text: String,
    rows: Option<Vec<usize>>,
    paginator: Paginator,
}

/// The state of a [`CountsTable`]
pub struct CountsTableView {
    /// The names of the rows, once fetched
    pub names: Option<Seq<String>>,
    /// The filter text
    pub filter: Seq<char>,
    /// The rows that pass the filter, in order (`None` when none do or none
    /// have been fetched)
    pub rows: Option<Seq<usize>>,
    /// The pagination
    pub paginator: PaginatorView,
}

impl View for CountsTable {
    type V = CountsTableView;

    closed spec fn view(&self) -> CountsTableView {
        CountsTableView {
            names: match self.names {
                Some(n) => Some(n@),
                None => None,
            },
            filter: self.filter_text@,
            rows: rows_view(self.rows),
            paginator: self.paginator@,
        }
    }
}

/// The rows that the table shows for its names and filter: those that pass
/// the filter, and none before the names are fetched
pub open spec fn shows_filtered(v: CountsTableView) -> bool {
    match v.names {
        Some(names) => is_filtered(names, v.filter, v.rows),
        None => v.rows is None,
    }
}

impl CountsTable {
    /// An empty table, showing `items_per_page` rows a page, before anything
    /// is fetched
    pub fn new(items_per_page: usize) -> (table: Self)
        ensures
            table@.names is None,
            table@.filter.len() == 0,
            table@.rows is None,
            table@.paginator == (PaginatorView {
                page_index: 0,
                total_count: 0,
                items_per_page,
            }),
    {
        CountsTable {
            names: None,
            filter_text: String::new(),
            rows: None,
            paginator: Paginator::new(0, 0, items_per_page),
        }
    }

    /// Filter the rows anew: back to the first page, with the rows that pass
    /// the filter
    fn update_filtered(&mut self)
        ensures
            final(self)@.names == old(self)@.names,
            final(self)@.filter == old(self)@.filter,
            shows_filtered(final(self)@),
            final(self)@.paginator.page_index == 0,
            final(self)@.paginator.total_count == old(self)@.paginator.total_count,
            final(self)@.paginator.items_per_page == old(self)@.paginator.items_per_page,
    {
        self.paginator.set_page_index(0);
        self.rows = match &self.names {
            Some(names) => filter_rows(names, self.filter_text.as_str()),
            None => None,
        };
    }

    /// The names of the rows have been fetched: the table shows those that
    /// pass the filter, from the first page
    pub fn receive_names(&mut self, names: Vec<String>)
        ensures
            final(self)@.names == Some(names@),
            final(self)@.filter == old(self)@.filter,
            shows_filtered(final(self)@),
            final(self)@.paginator.page_index == 0,
            final(self)@.paginator.total_count == old(self)@.paginator.total_count,
            final(self)@.paginator.items_per_page == old(self)@.paginator.items_per_page,
    {
        self.names = Some(names);
        self.update_filtered();
    }

    /// The filter text was changed by the user: the table shows the rows that
    /// pass the new filter, from the first page
    pub fn filter_changed(&mut self, filter: String)
        ensures
            final(self)@.names == old(self)@.names,
            final(self)@.filter == filter@,
            shows_filtered(final(self)@),
            final(self)@.paginator.page_index == 0,
            final(self)@.paginator.total_count == old(self)@.paginator.total_count,
            final(self)@.paginator.items_per_page == old(self)@.paginator.items_per_page,
    {
        self.filter_text = filter;
        self.update_filtered();
    }

    /// The filter text
    pub fn filter_text(&self) -> (filter: &String)
        ensures
            filter@ == self@.filter,
    {
        &self.filter_text
    }

    /// The rows that pass the filter, in order
    pub fn rows(&self) -> (rows: &Option<Vec<usize>>)
        ensures
            rows_view(*rows) == self@.rows,
    {
        &self.rows
    }

    /// The paginator
    pub fn paginator(&self) -> (paginator: Paginator)
        ensures
            paginator@ == self@.paginator,
    {
        self.paginator
    }

    /// The rows of the page shown, before it is drawn: the paginator counts
    /// the rows that pass the filter, and the indices of those on the current
    /// page are returned in order.  `None` when no row passes (the table then
    /// says that there is nothing to show).
    pub fn page_rows(&mut self) -> (page: Option<Vec<usize>>)
        requires
            old(self)@.paginator.items_per_page > 0,
            old(self)@.rows matches Some(rows) ==> old(self)@.paginator.page_index
                <= (rows.len() as int) / (old(self)@.paginator.items_per_page as int),
        ensures
            final(self)@.names == old(self)@.names,
            final(self)@.filter == old(self)@.filter,
            final(self)@.rows == old(self)@.rows,
            final(self)@.paginator.page_index == old(self)@.paginator.page_index,
            final(self)@.paginator.items_per_page == old(self)@.paginator.items_per_page,
            match old(self)@.rows {
                None => page is None && final(self)@.paginator.total_count
                    == old(self)@.paginator.total_count,
                Some(rows) => {
                    let bounds = page_bounds_of(
                        old(self)@.paginator.page_index as int,
                        rows.len() as int,
                        old(self)@.paginator.items_per_page as int,
                    );
                    &&& final(self)@.paginator.total_count == rows.len()
                    &&& page matches Some(p) && p@ == rows.subrange(bounds.0, bounds.1)
                },
            },
    {
        match &self.rows {
            None => None,
            Some(rows) => {
                self.paginator.set_total_count(rows.len());
                let (start, end) = self.paginator.page_bounds();
                let mut page: Vec<usize> = Vec::new();
                let mut i = start;
                while i < end
                    invariant
                        start <= i <= end <= rows.len(),
                        page@ == rows@.subrange(start as int, i as int),
                    decreases end - i,
                {
                    page.push(rows[i]);
                    i = i + 1;
                    proof {
                        assert(page@ =~= rows@.subrange(start as int, i as int));
                    }
                }
                Some(page)
            },
        }
    }

    /// Act upon a click on a navigation control of the paginator
    pub fn navigate(&mut self, nav: PageNavigation)
        requires
            paginator_ready(old(self)@.paginator),
            control_offered(
                nav,
                old(self)@.paginator.page_index as int,
                max_page_index_of(old(self)@.paginator),
            ),
        ensures
            final(self)@.names == old(self)@.names,
            final(self)@.filter == old(self)@.filter,
            final(self)@.rows == old(self)@.rows,
            final(self)@.paginator.page_index == page_after(
                nav,
                old(self)@.paginator.page_index as int,
                max_page_index_of(old(self)@.paginator),
            ),
            final(self)@.paginator.total_count == old(self)@.paginator.total_count,
            final(self)@.paginator.items_per_page == old(self)@.paginator.items_per_page,
    {
        self.paginator.navigate(nav);
    }
}

/// Every row drawn on a page of a counts table passes the filter, and the
/// rows of a page come in the order of the table
pub proof fn law_page_rows_pass_the_filter(
    names: Seq<String>,
    filter: Seq<char>,
    rows: Seq<usize>,
    start: int,
    end: int,
)
    requires
        is_filtered(names, filter, Some(rows)),
        0 <= start <= end <= rows.len(),
    ensures
        forall|k: int|
            0 <= k < end - start ==> (#[trigger] rows.subrange(start, end)[k]) < names.len()
                && passes_filter(names[rows.subrange(start, end)[k] as int]@, filter),
        forall|k: int, m: int|
            0 <= k < m < end - start ==> rows.subrange(start, end)[k] < rows.subrange(
                start,
                end,
            )[m],
{
    assert forall|k: int| 0 <= k < end - start implies (#[trigger] rows.subrange(start, end)[k])
        < names.len() && passes_filter(names[rows.subrange(start, end)[k] as int]@, filter) by {
        assert(rows.subrange(start, end)[k] == rows[start + k]);
    }
    assert forall|k: int, m: int| 0 <= k < m < end - start implies rows.subrange(start, end)[k]
        < rows.subrange(start, end)[m] by {
        assert(rows.subrange(start, end)[k] == rows[start + k]);
        assert(rows.subrange(start, end)[m] == rows[start + m]);
    }
}

} // verus!
