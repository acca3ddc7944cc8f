//! The window that renames or deletes a tag on every entity that has it:
//! whether a request goes out, and what the window says when it does not.

use crate::helpers::joined;
use crate::tags::TagText;
use crate::validity::ValidityAsynchronous;
use vstd::prelude::*;

verus! {

/// What the window is asked to do with the tag
#[derive(Debug, Clone, Copy, PartialEq, Eq, Structural)]
pub enum TagBulkAction {
    /// Replace the tag by the new one on every entity
    Update,
    /// Remove the tag from every entity
    Delete,
}

/// What comes of a request
#[derive(Debug, PartialEq, Eq)]
pub enum TagRequestDecision {
    /// The request goes out to the database
    Send,
    /// The request is refused, with the status to show
    Refuse(String),
    /// Nothing happens
    Ignore,
}

/// The refusal message for an invalid new tag
pub open spec fn refusal_message(action: TagBulkAction, error: Seq<char>) -> Seq<char> {
    match action {
        TagBulkAction::Update => "Tag can't be updated (error: "@ + error + ")"@,
        TagBulkAction::Delete => "Tag can't be deleted (error: "@ + error + ")"@,
    }
}

/// What comes of a request, from the validity of the new tag and whether
/// the tag has already been deleted: an update of a deleted tag is ignored;
/// otherwise a valid tag is sent, an invalid one is refused with its error,
/// and one still being checked is refused until the check is done
pub open spec fn is_tag_request_decision(
    action: TagBulkAction,
    validity: ValidityAsynchronous,
    deleted: bool,
    d: TagRequestDecision,
) -> bool {
    if action is Update && deleted {
        d is Ignore
    } else {
        match validity {
            ValidityAsynchronous::Valid => d is Send,
            ValidityAsynchronous::Invalid(e) => d matches TagRequestDecision::Refuse(m) && m@
                == refusal_message(action, e@),
            ValidityAsynchronous::Waiting => d matches TagRequestDecision::Refuse(m) && m@
                == "Waiting for validation"@,
        }
    }
}

/// What comes of a request to update or delete the tag
pub fn tag_request(action: TagBulkAction, validity: &ValidityAsynchronous, deleted: bool) -> (d:
    TagRequestDecision)
    ensures
        is_tag_request_decision(action, *validity, deleted, d),
{
    if action == TagBulkAction::Update && deleted {
        return TagRequestDecision::Ignore;
    }
    match validity {
        ValidityAsynchronous::Valid => TagRequestDecision::Send,
        ValidityAsynchronous::Invalid(error) => {
            let message = match action {
                TagBulkAction::Update => joined("Tag can't be updated (error: ", error.as_str(), ")"),
                TagBulkAction::Delete => joined("Tag can't be deleted (error: ", error.as_str(), ")"),
            };
            TagRequestDecision::Refuse(message)
        },
        ValidityAsynchronous::Waiting => TagRequestDecision::Refuse(
            String::from_str("Waiting for validation"),
        ),
    }
}

/// How a tag is written (as `bool_tag_expr::Tag` displays itself): its name,
/// `=` and its value, or `=` and the value when it has no name
pub open spec fn tag_display(t: TagText) -> Seq<char> {
    match t.name {
        Some(name) => name@ + "="@ + t.value@,
        None => "="@ + t.value@,
    }
}

/// How a tag is written
pub fn display_tag(tag: &TagText) -> (text: String)
    ensures
        text@ == tag_display(*tag),
{
    proof {
        reveal_strlit("");
        assert(forall|t: Seq<char>| ""@ + t =~= t);
    }
    match &tag.name {
        Some(name) => joined(name.as_str(), "=", tag.value.as_str()),
        None => joined("", "=", tag.value.as_str()),
    }
}

/// The status after the answer to an update of every entity's tag, and
/// whether the data changed (then the edited tag becomes the stored one)
pub fn update_answer(answer: &Result<(), String>) -> (r: (String, bool))
    ensures
        r.1 == (answer is Ok),
        r.0@ == match answer {
            Ok(()) => "Updated tag"@,
            Err(e) => "Failed to update tag: "@ + e@,
        },
{
    proof {
        reveal_strlit("");
        assert(forall|t: Seq<char>| t + ""@ =~= t);
    }
    match answer {
        Ok(()) => (String::from_str("Updated tag"), true),
        Err(e) => (joined("Failed to update tag: ", e.as_str(), ""), false),
    }
}

/// The status after the answer to a deletion of the tag from every entity,
/// and whether it was deleted (which also changes the data)
pub fn delete_answer(tag: &TagText, answer: &Result<(), String>) -> (r: (String, bool))
    ensures
        r.1 == (answer is Ok),
        r.0@ == match answer {
            Ok(()) => "Sucessfully deleted '"@ + tag_display(*tag) + "'"@,
            Err(e) => "Failed to delete '"@ + tag_display(*tag) + "': "@ + e@,
        },
{
    let shown = display_tag(tag);
    match answer {
        Ok(()) => (joined("Sucessfully deleted '", shown.as_str(), "'"), true),
        Err(e) => {
            let head = joined("Failed to delete '", shown.as_str(), "': ");
            let text = joined(head.as_str(), e.as_str(), "");
            proof {
                reveal_strlit("");
                assert(text@ =~= "Failed to delete '"@ + tag_display(*tag) + "': "@ + e@);
            }
            (text, false)
        },
    }
}

/// The title of the window that edits or shows a tag
pub fn tag_window_title(editing: bool, tag: &TagText) -> (title: String)
    ensures
        title@ == (if editing {
            "Edit Tag"@
        } else {
            "View Tag"@
        }) + " • "@ + tag_display(*tag),
{
    let shown = display_tag(tag);
    if editing {
        joined("Edit Tag", " • ", shown.as_str())
    } else {
        joined("View Tag", " • ", shown.as_str())
    }
}

} // verus!
