//! The windows that create and edit entities and timelines: when the thing
//! can be saved, and what the window does with the answers to its save and
//! delete requests.

use crate::common::{CrudOperationRequested, EntityOrTimeline};
use crate::enums::CreateOrEdit;
use crate::helpers::joined;
use vstd::prelude::*;

verus! {

/// Whether the thing in the window differs from its entry in the database:
/// nothing is known while creating (there is no entry) or while the inputs
/// are not valid (there is nothing to compare); `equals_entry` is whether
/// the valid inputs give the stored thing
pub open spec fn differs_spec(create_or_edit: CreateOrEdit, valid: bool, equals_entry: bool) -> Option<
    bool,
> {
    match create_or_edit {
        CreateOrEdit::Create => None,
        CreateOrEdit::Edit => if valid {
            Some(!equals_entry)
        } else {
            None
        },
    }
}

/// Whether the thing in the window differs from its entry in the database
pub fn differs_from_database_entry(
    create_or_edit: CreateOrEdit,
    valid: bool,
    equals_entry: bool,
) -> (differs: Option<bool>)
    ensures
        differs == differs_spec(create_or_edit, valid, equals_entry),
{
    match create_or_edit {
        CreateOrEdit::Create => None,
        CreateOrEdit::Edit => if valid {
            Some(!equals_entry)
        } else {
            None
        },
    }
}

/// Whether the thing can be saved: it is valid and not known to equal its
/// entry in the database
pub fn can_be_saved(differs: Option<bool>, valid: bool) -> (can: bool)
    ensures
        can == (differs != Some(false) && valid),
{
    let unchanged = match differs {
        Some(d) => !d,
        None => false,
    };
    !unchanged && valid
}

/// Whether the reset button is offered while editing: unless the thing is
/// known to equal its entry in the database
pub fn reset_offered(differs: Option<bool>) -> (offered: bool)
    ensures
        offered == (differs != Some(false)),
{
    match differs {
        Some(d) => d,
        None => true,
    }
}

/// The status that an edit window shows
#[derive(Debug)]
pub enum EditStatus<E> {
    WaitingForReload,
    WaitingForInitialLoad,
    NewWindowForCreation,
    NewWindowForEditing,
    CreateError(E),
    UpdateError(E),
    DeleteError(E),
    Created,
    Updated,
    Deleted,
    Invalid(String),
    HasBeenDeletedElseWhere,
}

/// The text that an edit window shows for its status, the errors given by
/// their messages
pub open spec fn edit_status_message(status: EditStatus<String>, kind: EntityOrTimeline) -> Seq<char> {
    let entity = kind is Entity;
    match status {
        EditStatus::WaitingForReload => if entity {
            "Waiting for entity to reload"@
        } else {
            "Waiting for timeline to reload"@
        },
        EditStatus::WaitingForInitialLoad => if entity {
            "Waiting for entity to load"@
        } else {
            "Waiting for timeline to load"@
        },
        EditStatus::NewWindowForCreation => if entity {
            "Ready to create an entity"@
        } else {
            "Ready to create an timeline"@
        },
        EditStatus::NewWindowForEditing => if entity {
            "Ready to edit an entity"@
        } else {
            "Ready to edit an timeline"@
        },
        EditStatus::CreateError(e) => if entity {
            "Error when trying to create entity: "@ + e@
        } else {
            "Error when trying to create timeline: "@ + e@
        },
        EditStatus::UpdateError(e) => if entity {
            "Error when trying to update entity: "@ + e@
        } else {
            "Error when trying to update timeline: "@ + e@
        },
        EditStatus::DeleteError(e) => if entity {
            "Error when trying to delete entity: "@ + e@
        } else {
            "Error when trying to delete timeline: "@ + e@
        },
        EditStatus::Created => if entity {
            "Entity successfully created"@
        } else {
            "Timeline successfully created"@
        },
        EditStatus::Updated => if entity {
            "Entity successfully updated"@
        } else {
            "Timeline successfully updated"@
        },
        EditStatus::Deleted => if entity {
            "Entity successfully deleted"@
        } else {
            "Timeline successfully deleted"@
        },
        EditStatus::Invalid(e) => if entity {
            "Entity is invalid: "@ + e@
        } else {
            "Timeline is invalid: "@ + e@
        },
        EditStatus::HasBeenDeletedElseWhere => if entity {
            "Entity was deleted elsewhere"@
        } else {
            "Timeline was deleted elsewhere"@
        },
    }
}

impl EditStatus<String> {
    /// The text shown for the status of a window on an entity or a timeline
    pub fn message(&self, kind: EntityOrTimeline) -> (text: String)
        ensures
            text@ == edit_status_message(*self, kind),
    {
        proof {
            reveal_strlit("");
            assert(forall|t: Seq<char>| t + ""@ =~= t);
        }
        let entity = kind == EntityOrTimeline::Entity;
        match self {
            EditStatus::WaitingForReload => if entity {
                String::from_str("Waiting for entity to reload")
            } else {
                String::from_str("Waiting for timeline to reload")
            },
            EditStatus::WaitingForInitialLoad => if entity {
                String::from_str("Waiting for entity to load")
            } else {
                String::from_str("Waiting for timeline to load")
            },
            EditStatus::NewWindowForCreation => if entity {
                String::from_str("Ready to create an entity")
            } else {
                String::from_str("Ready to create an timeline")
            },
            EditStatus::NewWindowForEditing => if entity {
                String::from_str("Ready to edit an entity")
            } else {
                String::from_str("Ready to edit an timeline")
            },
            EditStatus::CreateError(e) => if entity {
                joined("Error when trying to create entity: ", e.as_str(), "")
            } else {
                joined("Error when trying to create timeline: ", e.as_str(), "")
            },
            EditStatus::UpdateError(e) => if entity {
                joined("Error when trying to update entity: ", e.as_str(), "")
            } else {
                joined("Error when trying to update timeline: ", e.as_str(), "")
            },
            EditStatus::DeleteError(e) => if entity {
                joined("Error when trying to delete entity: ", e.as_str(), "")
            } else {
                joined("Error when trying to delete timeline: ", e.as_str(), "")
            },
            EditStatus::Created => if entity {
                String::from_str("Entity successfully created")
            } else {
                String::from_str("Timeline successfully created")
            },
            EditStatus::Updated => if entity {
                String::from_str("Entity successfully updated")
            } else {
                String::from_str("Timeline successfully updated")
            },
            EditStatus::Deleted => if entity {
                String::from_str("Entity successfully deleted")
            } else {
                String::from_str("Timeline successfully deleted")
            },
            EditStatus::Invalid(e) => if entity {
                joined("Entity is invalid: ", e.as_str(), "")
            } else {
                joined("Timeline is invalid: ", e.as_str(), "")
            },
            EditStatus::HasBeenDeletedElseWhere => if entity {
                String::from_str("Entity was deleted elsewhere")
            } else {
                String::from_str("Timeline was deleted elsewhere")
            },
        }
    }
}

/// The model of an edit window's requests: whether it creates or edits,
/// which answers it awaits, the operation requested, and the status shown
pub struct EditRequestsView<E> {
    pub create_or_edit: CreateOrEdit,
    pub awaiting_save: bool,
    pub awaiting_delete: bool,
    pub requested: Option<CrudOperationRequested>,
    pub status: EditStatus<E>,
}

/// The requests of an edit window
pub struct EditRequests<E> {
    create_or_edit: CreateOrEdit,
    awaiting_save: bool,
    awaiting_delete: bool,
    requested: Option<CrudOperationRequested>,
    status: EditStatus<E>,
}

impl<E> View for EditRequests<E> {
    type V = EditRequestsView<E>;

    closed spec fn view(&self) -> EditRequestsView<E> {
        EditRequestsView {
            create_or_edit: self.create_or_edit,
            awaiting_save: self.awaiting_save,
            awaiting_delete: self.awaiting_delete,
            requested: self.requested,
            status: self.status,
        }
    }
}

/// The window once the thing has been loaded from (or saved to) the
/// database: it edits that thing and awaits nothing
pub open spec fn loaded<E>(v: EditRequestsView<E>) -> EditRequestsView<E> {
    EditRequestsView {
        create_or_edit: CreateOrEdit::Edit,
        awaiting_save: false,
        awaiting_delete: false,
        requested: None,
        ..v
    }
}

/// The window after a save was asked for, if the thing can be saved
pub open spec fn after_save_request<E>(v: EditRequestsView<E>, savable: bool) -> EditRequestsView<E> {
    if savable {
        EditRequestsView {
            awaiting_save: true,
            requested: Some(CrudOperationRequested::CreateOrUpdate),
            ..v
        }
    } else {
        v
    }
}

/// The window after a delete was asked for
pub open spec fn after_delete_request<E>(v: EditRequestsView<E>) -> EditRequestsView<E> {
    EditRequestsView { awaiting_delete: true, requested: Some(CrudOperationRequested::Delete), ..v }
}

/// The window after the answer to its save request, and whether the data
/// changed: a success loads the saved thing, so that the window then edits
/// it, and the status is chosen after that: it says updated, after a creation
/// too; a failure shows the error and awaits nothing more; an answer that is
/// not awaited is ignored
pub open spec fn after_save_answer<E>(v: EditRequestsView<E>, answer: Result<(), E>) -> (
    EditRequestsView<E>,
    bool,
) {
    if !v.awaiting_save {
        (v, false)
    } else {
        match answer {
            Ok(()) => (
                EditRequestsView { status: EditStatus::Updated, ..loaded(v) },
                true,
            ),
            Err(e) => (
                EditRequestsView {
                    awaiting_save: false,
                    requested: None,
                    status: match v.create_or_edit {
                        CreateOrEdit::Create => EditStatus::CreateError(e),
                        CreateOrEdit::Edit => EditStatus::UpdateError(e),
                    },
                    ..v
                },
                false,
            ),
        }
    }
}

/// The window after the answer to its delete request, and whether the thing
/// was deleted (which is also a change of the data)
pub open spec fn after_delete_answer<E>(v: EditRequestsView<E>, answer: Result<(), E>) -> (
    EditRequestsView<E>,
    bool,
) {
    if !v.awaiting_delete {
        (v, false)
    } else {
        match answer {
            Ok(()) => (
                EditRequestsView {
                    awaiting_delete: false,
                    requested: None,
                    status: EditStatus::Deleted,
                    ..v
                },
                true,
            ),
            Err(e) => (
                EditRequestsView {
                    awaiting_delete: false,
                    requested: None,
                    status: EditStatus::DeleteError(e),
                    ..v
                },
                false,
            ),
        }
    }
}

impl<E> EditRequests<E> {
    /// A window for creating a new thing
    pub fn new_for_creating() -> (r: Self)
        ensures
            r@.create_or_edit == CreateOrEdit::Create,
            !r@.awaiting_save,
            !r@.awaiting_delete,
            r@.requested is None,
            r@.status is NewWindowForCreation,
    {
        EditRequests {
            create_or_edit: CreateOrEdit::Create,
            awaiting_save: false,
            awaiting_delete: false,
            requested: None,
            status: EditStatus::NewWindowForCreation,
        }
    }

    /// A window for editing a stored thing
    pub fn new_for_editing() -> (r: Self)
        ensures
            r@.create_or_edit == CreateOrEdit::Edit,
            !r@.awaiting_save,
            !r@.awaiting_delete,
            r@.requested is None,
            r@.status is NewWindowForEditing,
    {
        EditRequests {
            create_or_edit: CreateOrEdit::Edit,
            awaiting_save: false,
            awaiting_delete: false,
            requested: None,
            status: EditStatus::NewWindowForEditing,
        }
    }

    /// Whether the window creates or edits
    pub fn create_or_edit(&self) -> (c: CreateOrEdit)
        ensures
            c == self@.create_or_edit,
    {
        self.create_or_edit
    }

    /// The status shown
    pub fn status(&self) -> (status: &EditStatus<E>)
        ensures
            *status == self@.status,
    {
        &self.status
    }

    /// Show another status
    pub fn set_status(&mut self, status: EditStatus<E>)
        ensures
            final(self)@ == (EditRequestsView { status, ..old(self)@ }),
    {
        self.status = status;
    }

    /// Whether a spinner is shown: while an answer is awaited
    pub fn shows_spinner(&self) -> (spinner: bool)
        ensures
            spinner == (self@.awaiting_save || self@.awaiting_delete),
    {
        self.awaiting_save || self.awaiting_delete
    }

    /// The thing has been loaded from the database
    pub fn set_loaded(&mut self)
        ensures
            final(self)@ == loaded(old(self)@),
    {
        self.create_or_edit = CreateOrEdit::Edit;
        self.awaiting_save = false;
        self.awaiting_delete = false;
        self.requested = None;
    }

    /// Ask for the thing to be saved; returns whether the request goes out,
    /// which it does only when the thing can be saved
    pub fn request_save(&mut self, savable: bool) -> (sent: bool)
        ensures
            final(self)@ == after_save_request(old(self)@, savable),
            sent == savable,
    {
        if savable {
            self.awaiting_save = true;
            self.requested = Some(CrudOperationRequested::CreateOrUpdate);
        }
        savable
    }

    /// Ask for the thing to be deleted
    pub fn request_delete(&mut self)
        ensures
            final(self)@ == after_delete_request(old(self)@),
    {
        self.awaiting_delete = true;
        self.requested = Some(CrudOperationRequested::Delete);
    }

    /// Take the answer to the save request; returns whether the data changed
    pub fn receive_save_answer(&mut self, answer: Result<(), E>) -> (data_changed: bool)
        ensures
            (final(self)@, data_changed) == after_save_answer(old(self)@, answer),
    {
        if !self.awaiting_save {
            return false;
        }
        match answer {
            Ok(()) => {
                self.set_loaded();
                self.status = match self.create_or_edit {
                    CreateOrEdit::Create => EditStatus::Created,
                    CreateOrEdit::Edit => EditStatus::Updated,
                };
                true
            },
            Err(e) => {
                self.awaiting_save = false;
                self.requested = None;
                self.status = match self.create_or_edit {
                    CreateOrEdit::Create => EditStatus::CreateError(e),
                    CreateOrEdit::Edit => EditStatus::UpdateError(e),
                };
                false
            },
        }
    }

    /// Take the answer to the delete request; returns whether the thing was
    /// deleted
    pub fn receive_delete_answer(&mut self, answer: Result<(), E>) -> (deleted: bool)
        ensures
            (final(self)@, deleted) == after_delete_answer(old(self)@, answer),
    {
        if !self.awaiting_delete {
            return false;
        }
        self.awaiting_delete = false;
        self.requested = None;
        match answer {
            Ok(()) => {
                self.status = EditStatus::Deleted;
                true
            },
            Err(e) => {
                self.status = EditStatus::DeleteError(e);
                false
            },
        }
    }
}

/// A thing that was saved successfully is afterwards edited in its window,
/// whether it was being created or edited, nothing more is awaited, and the
/// status says it was updated
pub proof fn law_saved_thing_is_edited<E>(v: EditRequestsView<E>)
    ensures
        ({
            let (after, changed) = after_save_answer(after_save_request(v, true), Ok::<(), E>(()));
            &&& changed
            &&& after.create_or_edit == CreateOrEdit::Edit
            &&& !after.awaiting_save && !after.awaiting_delete
            &&& after.requested is None
            &&& after.status is Updated
        }),
{
}

/// A failed save leaves the window creating or editing as before, with the
/// error shown and nothing awaited for it; a failed delete leaves the thing
/// in place
pub proof fn law_failure_keeps_the_window<E>(v: EditRequestsView<E>, error: E)
    ensures
        ({
            let (after, changed) = after_save_answer(after_save_request(v, true), Err(error));
            &&& !changed
            &&& after.create_or_edit == v.create_or_edit
            &&& !after.awaiting_save
            &&& after.requested is None
        }),
        ({
            let (after, deleted) = after_delete_answer(after_delete_request(v), Err(error));
            &&& !deleted
            &&& after.create_or_edit == v.create_or_edit
            &&& !after.awaiting_delete
            &&& after.status == EditStatus::DeleteError(error)
        }),
{
}

/// Nothing is sent to be saved unless it can be saved, and a thing known to
/// equal its stored entry cannot be saved
pub proof fn law_only_changed_valid_things_are_saved<E>(
    v: EditRequestsView<E>,
    create_or_edit: CreateOrEdit,
    valid: bool,
    equals_entry: bool,
)
    ensures
        ({
            let differs = differs_spec(create_or_edit, valid, equals_entry);
            let savable = differs != Some(false) && valid;
            &&& (savable ==> valid)
            &&& (create_or_edit == CreateOrEdit::Edit && equals_entry ==> !savable)
            &&& (!savable ==> after_save_request(v, savable) == v)
        }),
{
}

} // verus!
