//! The filters of the timeline view window: the year limits of the dates
//! shown and the tag expression filter.

use crate::dates::{MAX_YEAR, MIN_YEAR};
use crate::search::{bool_tag_expr_parses, parse_bool_tag_expr};
use crate::text::{is_blank, trimmed};
use bool_tag_expr::{BoolTagExpr, ParseError};
use vstd::prelude::*;

verus! {

/// The year limits of a timeline view, each of which may be switched off
#[derive(Debug, Clone, Copy, PartialEq, Eq, Structural)]
pub struct DateLimits {
    pub start: i64,
    pub start_enabled: bool,
    pub end: i64,
    pub end_enabled: bool,
}

/// Both limits lie within the years a date may have
pub open spec fn limits_in_range(l: DateLimits) -> bool {
    MIN_YEAR <= l.start <= MAX_YEAR && MIN_YEAR <= l.end <= MAX_YEAR
}

/// The limits after the start limit was edited: it is switched on and
/// pulled back to the end limit if it passed it
pub open spec fn after_start_edit(l: DateLimits) -> DateLimits {
    DateLimits {
        start: if l.start <= l.end {
            l.start
        } else {
            l.end
        },
        start_enabled: true,
        ..l
    }
}

/// The limits after the end limit was edited: it is switched on and pushed
/// forward to the start limit if it fell before it
pub open spec fn after_end_edit(l: DateLimits) -> DateLimits {
    DateLimits {
        end: if l.start <= l.end {
            l.end
        } else {
            l.start
        },
        end_enabled: true,
        ..l
    }
}

impl DateLimits {
    /// The limits of a newly opened view: 1850 to 2050, both off
    pub fn new() -> (limits: Self)
        ensures
            limits == (DateLimits { start: 1850, start_enabled: false, end: 2050, end_enabled: false }),
    {
        DateLimits { start: 1850, start_enabled: false, end: 2050, end_enabled: false }
    }

    /// The start limit was edited: it is switched on and may not pass the
    /// end limit
    pub fn start_changed(&mut self)
        ensures
            *final(self) == after_start_edit(*old(self)),
    {
        self.start_enabled = true;
        if self.end < self.start {
            self.start = self.end;
        }
    }

    /// The end limit was edited: it is switched on and may not pass the
    /// start limit
    pub fn end_changed(&mut self)
        ensures
            *final(self) == after_end_edit(*old(self)),
    {
        self.end_enabled = true;
        if self.end < self.start {
            self.end = self.start;
        }
    }

    /// The timeline arrived: the limits become the years it spans, with
    /// the switches left as they were
    pub fn set_span(&mut self, start: i64, end: i64)
        ensures
            final(self).start == start,
            final(self).end == end,
            final(self).start_enabled == old(self).start_enabled,
            final(self).end_enabled == old(self).end_enabled,
    {
        self.start = start;
        self.end = end;
    }

    /// The limits to apply: each year whose switch is on
    pub fn active(&self) -> (limits: (Option<i64>, Option<i64>))
        ensures
            limits.0 == (if self.start_enabled {
                Some(self.start)
            } else {
                None
            }),
            limits.1 == (if self.end_enabled {
                Some(self.end)
            } else {
                None
            }),
    {
        let start = if self.start_enabled {
            Some(self.start)
        } else {
            None
        };
        let end = if self.end_enabled {
            Some(self.end)
        } else {
            None
        };
        (start, end)
    }
}

/// Editing a limit leaves the start no later than the end and keeps both in
/// the range of years; the limit that was not edited stays where it was
pub proof fn law_edited_limits_stay_ordered(l: DateLimits)
    requires
        limits_in_range(l),
    ensures
        after_start_edit(l).start <= after_start_edit(l).end,
        after_end_edit(l).start <= after_end_edit(l).end,
        limits_in_range(after_start_edit(l)),
        limits_in_range(after_end_edit(l)),
        after_start_edit(l).end == l.end,
        after_end_edit(l).start == l.start,
{
}

/// Whether the tag expression filter is switched on after its text changed:
/// it is exactly when the text is not blank
pub fn tag_filter_enabled_after_edit(expr: &str) -> (enabled: bool)
    ensures
        enabled == (trimmed(expr@).len() > 0),
{
    !is_blank(expr)
}

/// What becomes of the view's entity filter after the tag filter changed
#[derive(Debug)]
pub enum TagFilterUpdate {
    /// Filter the entities by this expression
    Filter(BoolTagExpr),
    /// Show all entities
    Remove,
    /// Leave the filter as it is (the expression does not parse)
    Keep,
}

/// The update of the entity filter, from whether the filter is on and, when
/// it is, what parsing its expression gave
pub fn tag_filter_update_from(enabled: bool, parsed: Result<BoolTagExpr, ParseError>) -> (update:
    TagFilterUpdate)
    ensures
        !enabled ==> update is Remove,
        enabled ==> (if parsed is Ok {
            update is Filter
        } else {
            update is Keep
        }),
        update matches TagFilterUpdate::Filter(e) ==> parsed == Ok::<BoolTagExpr, ParseError>(e),
{
    if !enabled {
        return TagFilterUpdate::Remove;
    }
    match parsed {
        Ok(expr) => TagFilterUpdate::Filter(expr),
        Err(_) => TagFilterUpdate::Keep,
    }
}

/// The update of the entity filter after the tag filter changed: off removes
/// the filter; on sets it to the expression if that parses, else keeps it
pub fn tag_filter_update(enabled: bool, expr: &str) -> (update: TagFilterUpdate)
    ensures
        !enabled ==> update is Remove,
        enabled ==> (if bool_tag_expr_parses(expr@) {
            update is Filter
        } else {
            update is Keep
        }),
{
    if !enabled {
        return TagFilterUpdate::Remove;
    }
    let parsed = parse_bool_tag_expr(expr);
    tag_filter_update_from(enabled, parsed)
}

} // verus!
