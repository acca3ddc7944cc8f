//! Reloading the thing that a window shows when the data changed elsewhere.

use vstd::prelude::*;

verus! {

/// What a window does when asked to reload
#[derive(Debug, Clone, Copy, PartialEq, Eq, Structural)]
pub enum ReloadStart {
    /// Fetch the thing by its id
    Fetch,
    /// There is no id to fetch by: the thing is taken as deleted
    MarkDeleted,
    /// The thing has been deleted already: nothing is done
    Nothing,
}

/// What a window does when asked to reload, from whether its thing has been
/// deleted and whether it has an id
pub open spec fn reload_start_for(deleted: bool, has_id: bool) -> ReloadStart {
    if deleted {
        ReloadStart::Nothing
    } else if has_id {
        ReloadStart::Fetch
    } else {
        ReloadStart::MarkDeleted
    }
}

/// Whether a window waits for its thing to be fetched again
#[derive(Debug, Clone, Copy, PartialEq, Eq, Structural)]
pub struct ReloadRequests {
    pub requested: bool,
}

impl ReloadRequests {
    /// Nothing requested
    pub fn new() -> (r: Self)
        ensures
            !r.requested,
    {
        ReloadRequests { requested: false }
    }

    /// Asked to reload: fetch when the thing is there to be fetched, and
    /// wait for it
    pub fn request(&mut self, deleted: bool, has_id: bool) -> (start: ReloadStart)
        ensures
            start == reload_start_for(deleted, has_id),
            final(self).requested == (old(self).requested || start is Fetch),
    {
        if deleted {
            ReloadStart::Nothing
        } else if has_id {
            self.requested = true;
            ReloadStart::Fetch
        } else {
            ReloadStart::MarkDeleted
        }
    }

    /// The fetch has been answered
    pub fn answered(&mut self)
        ensures
            !final(self).requested,
    {
        self.requested = false;
    }

    /// Whether the window shows a spinner in place of its thing
    pub fn shows_spinner(&self) -> (spinner: bool)
        ensures
            spinner == self.requested,
    {
        self.requested
    }
}

/// A tag is taken as deleted when no entity and no timeline has it any more
pub fn tag_has_gone(entity_count: usize, timeline_count: usize) -> (gone: bool)
    ensures
        gone == (entity_count == 0 && timeline_count == 0),
{
    entity_count == 0 && timeline_count == 0
}

} // verus!
