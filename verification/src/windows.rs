//! Break-out windows: what a window shows once the thing it shows has been
//! deleted, and when it closes itself.

use crate::common::EntityOrTimeline;
use crate::enums::CreateOrEdit;
use crate::helpers::joined;
use std::time::Instant;
use vstd::prelude::*;

verus! {

#[verifier::external_type_specification]
#[verifier::external_body]
pub struct ExInstant(Instant);

/// Whether the thing that a window shows has been deleted, and when
#[derive(Debug, Clone, Copy, Hash, PartialEq, Eq)]
pub enum DeletedStatus {
    Deleted(Instant),
    NotDeleted,
}

impl DeletedStatus {
    /// Whether the thing has been deleted
    pub fn has_been_deleted(&self) -> (deleted: bool)
        ensures
            deleted == (*self is Deleted),
    {
        match self {
            DeletedStatus::Deleted(_) => true,
            DeletedStatus::NotDeleted => false,
        }
    }
}

/// How long a window stays open once the thing it shows has been deleted
pub const DELETED_WINDOW_TIMEOUT_SECS: u64 = 5;

/// What a window shows once the thing it showed has been deleted
#[derive(Debug, Clone, Copy, PartialEq, Eq, Structural)]
pub enum DeletionCountdown {
    /// "Will close in `n` secs"
    ClosesIn(u64),
    /// The window asks to be closed
    Close,
}

/// The countdown after `elapsed` whole seconds since the deletion
pub open spec fn countdown_after(elapsed: int) -> DeletionCountdown {
    if elapsed < DELETED_WINDOW_TIMEOUT_SECS {
        DeletionCountdown::ClosesIn((DELETED_WINDOW_TIMEOUT_SECS - elapsed) as u64)
    } else {
        DeletionCountdown::Close
    }
}

/// The countdown of a window whose thing was deleted `elapsed_secs` whole
/// seconds ago: the seconds left while there is at least one, then closing
pub fn deletion_countdown(elapsed_secs: u64) -> (countdown: DeletionCountdown)
    ensures
        countdown == countdown_after(elapsed_secs as int),
{
    if elapsed_secs < DELETED_WINDOW_TIMEOUT_SECS {
        DeletionCountdown::ClosesIn(DELETED_WINDOW_TIMEOUT_SECS - elapsed_secs)
    } else {
        DeletionCountdown::Close
    }
}

/// The countdown shows at least one second while it runs, counts down as
/// time passes, and once the window is to close it stays so
pub proof fn law_countdown_runs_down(earlier: nat, later: nat)
    requires
        earlier <= later,
    ensures
        countdown_after(earlier as int) matches DeletionCountdown::ClosesIn(n) ==> 1 <= n
            <= DELETED_WINDOW_TIMEOUT_SECS,
        countdown_after(earlier as int) matches DeletionCountdown::ClosesIn(a) ==> (countdown_after(
            later as int,
        ) matches DeletionCountdown::ClosesIn(b) ==> b + (later - earlier) == a),
        countdown_after(earlier as int) is Close ==> countdown_after(later as int) is Close,
{
}

/// The title of a window that creates or edits an entity or a timeline:
/// what it does, then the name being entered
pub open spec fn edit_title(kind: EntityOrTimeline, create_or_edit: CreateOrEdit, name: Seq<char>) -> Seq<
    char,
> {
    let prefix = match (create_or_edit, kind) {
        (CreateOrEdit::Create, EntityOrTimeline::Entity) => "Create Entity"@,
        (CreateOrEdit::Edit, EntityOrTimeline::Entity) => "Edit Entity"@,
        (CreateOrEdit::Create, EntityOrTimeline::Timeline) => "Create Timeline"@,
        (CreateOrEdit::Edit, EntityOrTimeline::Timeline) => "Edit Timeline"@,
    };
    prefix + " • "@ + name
}

/// The title of a window that creates or edits an entity or a timeline
pub fn edit_window_title(kind: EntityOrTimeline, create_or_edit: CreateOrEdit, name: &str) -> (title:
    String)
    ensures
        title@ == edit_title(kind, create_or_edit, name@),
{
    let prefix = match (create_or_edit, kind) {
        (CreateOrEdit::Create, EntityOrTimeline::Entity) => "Create Entity",
        (CreateOrEdit::Edit, EntityOrTimeline::Entity) => "Edit Entity",
        (CreateOrEdit::Create, EntityOrTimeline::Timeline) => "Create Timeline",
        (CreateOrEdit::Edit, EntityOrTimeline::Timeline) => "Edit Timeline",
    };
    joined(prefix, " • ", name)
}

/// The title of a window that shows an entity or a timeline: its name once
/// it has loaded
pub open spec fn view_title(kind: EntityOrTimeline, name: Option<Seq<char>>) -> Seq<char> {
    match (kind, name) {
        (EntityOrTimeline::Entity, None) => "View Entity  -  [loading]"@,
        (EntityOrTimeline::Timeline, None) => "View Timeline  -  [loading]"@,
        (EntityOrTimeline::Entity, Some(n)) => "View Entity"@ + " • "@ + n,
        (EntityOrTimeline::Timeline, Some(n)) => "View Timeline"@ + " • "@ + n,
    }
}

/// The title of a window that shows an entity or a timeline
pub fn view_window_title(kind: EntityOrTimeline, name: Option<&str>) -> (title: String)
    ensures
        title@ == view_title(
            kind,
            match name {
                Some(n) => Some(n@),
                None => None,
            },
        ),
{
    match (kind, name) {
        (EntityOrTimeline::Entity, None) => String::from_str("View Entity  -  [loading]"),
        (EntityOrTimeline::Timeline, None) => String::from_str("View Timeline  -  [loading]"),
        (EntityOrTimeline::Entity, Some(n)) => joined("View Entity", " • ", n),
        (EntityOrTimeline::Timeline, Some(n)) => joined("View Timeline", " • ", n),
    }
}

/// Whether a window with the id is in the list
pub open spec fn has_window<W>(ws: Seq<(u64, W)>, id: u64) -> bool {
    exists|i: int| 0 <= i < ws.len() && #[trigger] ws[i].0 == id
}

/// No two windows of the list have the same id
pub open spec fn ids_distinct<W>(ws: Seq<(u64, W)>) -> bool {
    forall|i: int, j: int| 0 <= i < j < ws.len() ==> #[trigger] ws[i].0 != #[trigger] ws[j].0
}

/// What opening a window came to
#[derive(Debug, Clone, Copy, PartialEq, Eq, Structural)]
pub enum WindowInsert {
    /// A window with that id is open already: it is to be brought to the
    /// front, and the new one is dropped
    FocusExisting,
    /// The window was added to the list
    Opened,
}

/// The break-out windows that are open, each under its id (no two with the
/// same id), in the order in which they were opened
pub struct BreakOutWindows<W> {
    windows: Vec<(u64, W)>,
}

impl<W> BreakOutWindows<W> {
    #[verifier::type_invariant]
    spec fn ids_are_distinct(self) -> bool {
        ids_distinct(self.windows@)
    }
}

impl<W> View for BreakOutWindows<W> {
    type V = Seq<(u64, W)>;

    closed spec fn view(&self) -> Seq<(u64, W)> {
        self.windows@
    }
}

impl<W> BreakOutWindows<W> {
    /// No window open
    pub fn new() -> (windows: Self)
        ensures
            windows@.len() == 0,
            ids_distinct(windows@),
    {
        BreakOutWindows { windows: Vec::new() }
    }

    /// Whether a window with the id is open
    pub fn contains(&self, id: u64) -> (open: bool)
        ensures
            open == has_window(self@, id),
    {
        let mut i: usize = 0;
        while i < self.windows.len()
            invariant
                i <= self.windows.len(),
                forall|j: int| 0 <= j < i ==> self.windows@[j].0 != id,
            decreases self.windows.len() - i,
        {
            if self.windows[i].0 == id {
                return true;
            }
            i = i + 1;
        }
        false
    }

    /// Open a window under the id, unless one with that id is open already
    pub fn insert(&mut self, id: u64, window: W) -> (r: WindowInsert)
        ensures
            ids_distinct(final(self)@),
            has_window(old(self)@, id) ==> r is FocusExisting && final(self)@ == old(self)@,
            !has_window(old(self)@, id) ==> r is Opened && final(self)@ == old(self)@.push(
                (id, window),
            ),
    {
        proof {
            use_type_invariant(&*self);
        }
        if self.contains(id) {
            return WindowInsert::FocusExisting;
        }
        let mut windows: Vec<(u64, W)> = Vec::new();
        std::mem::swap(&mut windows, &mut self.windows);
        windows.push((id, window));
        proof {
            let ws = windows@;
            assert forall|i: int, j: int| 0 <= i < j < ws.len() implies #[trigger] ws[i].0
                != #[trigger] ws[j].0 by {
                if j == ws.len() - 1 {
                    assert(old(self)@[i] == ws[i]);
                    assert(ws[i].0 != id);
                } else {
                    assert(old(self)@[i] == ws[i] && old(self)@[j] == ws[j]);
                }
            }
        }
        self.windows = windows;
        WindowInsert::Opened
    }

    /// Close the window with the id, handing it back
    pub fn remove(&mut self, id: u64) -> (closed: Option<W>)
        ensures
            ids_distinct(final(self)@),
            !has_window(final(self)@, id),
            match closed {
                Some(w) => exists|i: int|
                    0 <= i < old(self)@.len() && old(self)@[i] == (id, w) && final(self)@
                        == old(self)@.remove(i),
                None => !has_window(old(self)@, id) && final(self)@ == old(self)@,
            },
    {
        proof {
            use_type_invariant(&*self);
        }
        let mut i: usize = 0;
        while i < self.windows.len()
            invariant
                i <= self.windows.len(),
                self.windows@ == old(self)@,
                ids_distinct(old(self)@),
                forall|j: int| 0 <= j < i ==> self.windows@[j].0 != id,
            decreases self.windows.len() - i,
        {
            if self.windows[i].0 == id {
                let ghost before = self.windows@;
                let mut windows: Vec<(u64, W)> = Vec::new();
                std::mem::swap(&mut windows, &mut self.windows);
                let (_, w) = windows.remove(i);
                proof {
                    let ws = windows@;
                    assert(ws == before.remove(i as int));
                    assert forall|a: int, b: int| 0 <= a < b < ws.len() implies #[trigger] ws[a].0
                        != #[trigger] ws[b].0 by {
                        let a2 = if a < i { a } else { a + 1 };
                        let b2 = if b < i { b } else { b + 1 };
                        assert(ws[a] == before[a2] && ws[b] == before[b2]);
                    }
                    if has_window(ws, id) {
                        let k = choose|k: int| 0 <= k < ws.len() && #[trigger] ws[k].0 == id;
                        let k2 = if k < i { k } else { k + 1 };
                        assert(ws[k] == before[k2]);
                    }
                    assert(before[i as int] == (id, w));
                }
                self.windows = windows;
                return Some(w);
            }
            i = i + 1;
        }
        None
    }

    /// The ids of the open windows, in order
    pub fn ids(&self) -> (ids: Vec<u64>)
        ensures
            ids@.len() == self@.len(),
            forall|i: int| 0 <= i < ids@.len() ==> ids@[i] == self@[i].0,
    {
        let mut ids: Vec<u64> = Vec::new();
        for i in 0..self.windows.len()
            invariant
                ids@.len() == i,
                forall|j: int| 0 <= j < i ==> ids@[j] == self@[j].0,
        {
            ids.push(self.windows[i].0);
        }
        ids
    }
}

} // verus!
