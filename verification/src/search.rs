//! The search panel: which search runs for the criteria the user set, and
//! which results are shown.

use crate::text::{is_blank, trimmed};
use bool_tag_expr::{BoolTagExpr, ParseError};
use vstd::prelude::*;

verus! {

#[verifier::external_type_specification]
#[verifier::external_body]
pub struct ExBoolTagExpr(BoolTagExpr);

#[verifier::external_type_specification]
#[verifier::external_body]
pub struct ExParseError(ParseError);

/// Whether `BoolTagExpr::from` accepts the text as a boolean tag expression
/// (lexically and syntactically)
pub uninterp spec fn bool_tag_expr_parses(text: Seq<char>) -> bool;

/// `bool_tag_expr::BoolTagExpr::from`: parses a boolean tag expression.  The
/// contract claims only that whether it succeeds depends on the text alone;
/// the grammar is the crate's and is not restated here.
#[verifier::external_body]
pub(crate) fn parse_bool_tag_expr(text: &str) -> (parsed: Result<BoolTagExpr, ParseError>)
    ensures
        (parsed is Ok) == bool_tag_expr_parses(text@),
{
    BoolTagExpr::from(text)
}

/// The most results a search asks the database for, and the most it shows
pub const SEARCH_LIMIT: u32 = 75;

/// Which search is run
#[derive(Debug, Clone, Copy, PartialEq, Eq, Structural)]
pub enum SearchRequest {
    /// No criterion is active: the results are cleared and nothing is asked
    ClearResults,
    /// Search by partial name
    ByPartialName,
    /// Search by boolean tag expression
    ByBoolTagExpr,
    /// Search by partial name and boolean tag expression
    ByPartialNameAndBoolTagExpr,
}

/// What is asked of the database for a search
#[derive(Debug)]
pub enum SearchQuery {
    /// Nothing: the results are cleared
    Clear,
    /// Entities or timelines whose name holds the text
    ByPartialName(String),
    /// Entities or timelines whose tags satisfy the expression
    ByBoolTagExpr(BoolTagExpr),
    /// Both of the above at once
    ByPartialNameAndBoolTagExpr(String, BoolTagExpr),
    /// The expression does not parse: the search fails with this error
    ParseFailed(ParseError),
}

/// The query fits the request: the name searched for is `name`, and a search
/// that needs the expression fails exactly when it did not parse
pub open spec fn query_fits(
    request: SearchRequest,
    name: Seq<char>,
    expr_parsed: bool,
    q: SearchQuery,
) -> bool {
    match request {
        SearchRequest::ClearResults => q is Clear,
        SearchRequest::ByPartialName => q matches SearchQuery::ByPartialName(n) && n@ == name,
        SearchRequest::ByBoolTagExpr => if expr_parsed {
            q is ByBoolTagExpr
        } else {
            q is ParseFailed
        },
        SearchRequest::ByPartialNameAndBoolTagExpr => if expr_parsed {
            q matches SearchQuery::ByPartialNameAndBoolTagExpr(n, _) && n@ == name
        } else {
            q is ParseFailed
        },
    }
}

/// Which button was clicked on a search result
pub enum SearchResultButtonClicked<T> {
    View(T),
    Edit(T),
}

/// What the buttons of a search result's row ask for: the view button is
/// drawn after the edit button, so a click on it is the one kept
pub fn result_button_clicked<T>(edit_clicked: bool, view_clicked: bool, item: T) -> (clicked: Option<
    SearchResultButtonClicked<T>,
>)
    ensures
        clicked == (if view_clicked {
            Some(SearchResultButtonClicked::View(item))
        } else if edit_clicked {
            Some(SearchResultButtonClicked::Edit(item))
        } else {
            None
        }),
{
    if view_clicked {
        Some(SearchResultButtonClicked::View(item))
    } else if edit_clicked {
        Some(SearchResultButtonClicked::Edit(item))
    } else {
        None
    }
}

/// The search that corresponds to the active criteria
pub open spec fn search_request_for(name_active: bool, tag_expr_active: bool) -> SearchRequest {
    match (name_active, tag_expr_active) {
        (false, false) => SearchRequest::ClearResults,
        (true, false) => SearchRequest::ByPartialName,
        (false, true) => SearchRequest::ByBoolTagExpr,
        (true, true) => SearchRequest::ByPartialNameAndBoolTagExpr,
    }
}

/// The criteria of a search by partial name and boolean tag expression
#[derive(Debug, Clone)]
pub struct SearchCriteria {
    /// Whether the search by name is active
    pub name_search_active: bool,
    /// The partial name searched for
    pub name_search: String,
    /// Whether the search by boolean tag expression is active
    pub tag_boolean_expr_search_active: bool,
}

impl SearchCriteria {
    /// The criteria of a new search panel: search by (empty) name
    pub fn new() -> (criteria: Self)
        ensures
            criteria.name_search_active,
            criteria.name_search@.len() == 0,
            !criteria.tag_boolean_expr_search_active,
    {
        SearchCriteria {
            name_search_active: true,
            name_search: String::new(),
            tag_boolean_expr_search_active: false,
        }
    }

    /// The search to run for the criteria
    pub fn request(&self) -> (request: SearchRequest)
        ensures
            request == search_request_for(
                self.name_search_active,
                self.tag_boolean_expr_search_active,
            ),
    {
        match (self.name_search_active, self.tag_boolean_expr_search_active) {
            (false, false) => SearchRequest::ClearResults,
            (true, false) => SearchRequest::ByPartialName,
            (false, true) => SearchRequest::ByBoolTagExpr,
            (true, true) => SearchRequest::ByPartialNameAndBoolTagExpr,
        }
    }

    /// The user edited the search bars: typing a name activates the search by
    /// name, and editing the boolean tag expression activates the search by
    /// expression unless the expression is blank.  Returns whether the
    /// search is to be run again.
    pub fn inputs_changed(&mut self, name_changed: bool, expr_changed: bool, expr: &str) -> (reload:
        bool)
        ensures
            reload == (name_changed || expr_changed),
            final(self).name_search_active == (old(self).name_search_active || name_changed),
            final(self).tag_boolean_expr_search_active == if expr_changed {
                trimmed(expr@).len() != 0
            } else {
                old(self).tag_boolean_expr_search_active
            },
            final(self).name_search == old(self).name_search,
    {
        if name_changed {
            self.name_search_active = true;
        }
        if expr_changed {
            self.tag_boolean_expr_search_active = !is_blank(expr);
        }
        expr_changed || name_changed
    }

    /// The user ticked or unticked the search checkboxes, which now read
    /// `name_active` and `expr_active`: the criteria follow them, and the
    /// search is to be run again when either changed
    pub fn checkboxes_set(&mut self, name_active: bool, expr_active: bool) -> (reload: bool)
        ensures
            final(self).name_search_active == name_active,
            final(self).tag_boolean_expr_search_active == expr_active,
            final(self).name_search == old(self).name_search,
            reload == (name_active != old(self).name_search_active || expr_active
                != old(self).tag_boolean_expr_search_active),
    {
        let reload = name_active != self.name_search_active || expr_active
            != self.tag_boolean_expr_search_active;
        self.name_search_active = name_active;
        self.tag_boolean_expr_search_active = expr_active;
        reload
    }

    /// Whether the results table is shown (rather than "None"): a criterion is
    /// active and there are results
    pub fn shows_results(&self, result_count: usize) -> (shown: bool)
        ensures
            shown == ((self.name_search_active || self.tag_boolean_expr_search_active)
                && result_count > 0),
    {
        (self.name_search_active || self.tag_boolean_expr_search_active) && result_count > 0
    }

    /// The query for the criteria, given what parsing the expression gave
    /// (used only by the searches that need it)
    pub fn query_from_parsed(&self, parsed: Result<BoolTagExpr, ParseError>) -> (q: SearchQuery)
        ensures
            query_fits(
                search_request_for(self.name_search_active, self.tag_boolean_expr_search_active),
                self.name_search@,
                parsed is Ok,
                q,
            ),
            q matches SearchQuery::ByBoolTagExpr(e) ==> parsed == Ok::<BoolTagExpr, ParseError>(e),
            q matches SearchQuery::ByPartialNameAndBoolTagExpr(_, e) ==> parsed == Ok::<
                BoolTagExpr,
                ParseError,
            >(e),
            q matches SearchQuery::ParseFailed(error) ==> parsed == Err::<BoolTagExpr, ParseError>(
                error,
            ),
    {
        match (self.name_search_active, self.tag_boolean_expr_search_active) {
            (false, false) => SearchQuery::Clear,
            (true, false) => SearchQuery::ByPartialName(self.name_search.clone()),
            (false, true) => match parsed {
                Ok(expr) => SearchQuery::ByBoolTagExpr(expr),
                Err(error) => SearchQuery::ParseFailed(error),
            },
            (true, true) => match parsed {
                Ok(expr) => SearchQuery::ByPartialNameAndBoolTagExpr(self.name_search.clone(), expr),
                Err(error) => SearchQuery::ParseFailed(error),
            },
        }
    }

    /// The query for the criteria and the text of the expression search bar
    pub fn query(&self, expr: &str) -> (q: SearchQuery)
        ensures
            query_fits(
                search_request_for(self.name_search_active, self.tag_boolean_expr_search_active),
                self.name_search@,
                bool_tag_expr_parses(expr@),
                q,
            ),
    {
        if self.tag_boolean_expr_search_active {
            let parsed = parse_bool_tag_expr(expr);
            self.query_from_parsed(parsed)
        } else if self.name_search_active {
            SearchQuery::ByPartialName(self.name_search.clone())
        } else {
            SearchQuery::Clear
        }
    }
}

/// How many results are drawn: all of them, up to the search limit
pub fn shown_result_count(result_count: usize) -> (shown: usize)
    ensures
        shown == if result_count <= SEARCH_LIMIT {
            result_count as int
        } else {
            SEARCH_LIMIT as int
        },
{
    if result_count <= SEARCH_LIMIT as usize {
        result_count
    } else {
        SEARCH_LIMIT as usize
    }
}

/// Each combination of criteria runs its own search, and the search runs
/// exactly when a criterion is active
pub proof fn law_search_runs_iff_criterion_active(name_active: bool, tag_expr_active: bool)
    ensures
        (search_request_for(name_active, tag_expr_active) is ClearResults) <==> (!name_active
            && !tag_expr_active),
        search_request_for(name_active, tag_expr_active) is ByPartialName ==> name_active,
        search_request_for(name_active, tag_expr_active) is ByBoolTagExpr ==> tag_expr_active,
{
}

} // verus!
