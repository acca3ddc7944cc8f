//! Everything needed to work with tags: the input of one tag (name and
//! value), its validity, and the list of tag inputs of an entity.

use crate::common::ToOpenTimelineType;
use crate::enums::ShowRemoveButton;
use crate::text::{is_blank, trimmed};
use crate::validity::{
    combined_validity, first_invalid, first_not_valid, overall_validity_matches, Valid,
    ValidAsynchronous, ValidSynchronous, ValidityAsynchronous, ValiditySynchronous,
    ValitityStatus,
};
use vstd::prelude::*;

verus! {

/// What `bool_tag_expr::TagComponent::from` makes of a text: the component's
/// text when accepted, otherwise `Err(None)` for an empty component and
/// `Err(Some(message))` for any other error, with the error's message.
pub uninterp spec fn tag_component_outcome(input: Seq<char>) -> Result<Seq<char>, Option<Seq<char>>>;

/// The text of an accepted tag component: lowercase ASCII letters and
/// hyphens, neither first nor last, and never two hyphens in a row
pub open spec fn is_tag_component_text(t: Seq<char>) -> bool {
    &&& t.len() >= 1
    &&& forall|i: int| 0 <= i < t.len() ==> ('a' <= #[trigger] t[i] <= 'z' || t[i] == '-')
    &&& t[0] != '-'
    &&& t.last() != '-'
    &&& forall|i: int| 0 <= i < t.len() - 1 ==> !(#[trigger] t[i] == '-' && t[i + 1] == '-')
}

/// Why a tag component was refused
#[derive(Debug, Clone, PartialEq, Eq)]
pub enum TagComponentError {
    /// The component is empty (after trimming)
    Empty,
    /// Any other reason, with its message
    Invalid(String),
}

/// The message of the error (as `bool_tag_expr::TagError` displays it)
pub open spec fn tag_component_error_message(e: Option<Seq<char>>) -> Seq<char> {
    match e {
        None => "Tag component cannot be empty"@,
        Some(msg) => msg,
    }
}

/// The outcome of a tag component check as plain values
pub open spec fn component_result_view(r: Result<String, TagComponentError>) -> Result<
    Seq<char>,
    Option<Seq<char>>,
> {
    match r {
        Ok(text) => Ok(text@),
        Err(TagComponentError::Empty) => Err(None),
        Err(TagComponentError::Invalid(msg)) => Err(Some(msg@)),
    }
}

/// A text already in the form of a tag component comes back as it is
pub open spec fn component_kept_as_is(input: Seq<char>, r: Result<String, TagComponentError>) -> bool {
    is_tag_component_text(input) ==> (r matches Ok(text) && text@ == input)
}

/// `bool_tag_expr::TagComponent::from`: the input is lowercased and trimmed,
/// then accepted if it is a valid tag name or value.  The contract states the
/// outcome by its name, that blank input is refused as empty, that a text
/// already in the form of a component is accepted as it is, and the shape of
/// an accepted component; what else is accepted is left to the crate.
#[verifier::external_body]
pub(crate) fn tag_component_from(input: &str) -> (r: Result<String, TagComponentError>)
    ensures
        component_result_view(r) == tag_component_outcome(input@),
        trimmed(input@).len() == 0 ==> (r matches Err(TagComponentError::Empty)),
        r matches Ok(text) ==> is_tag_component_text(text@),
        component_kept_as_is(input@, r),
{
    match bool_tag_expr::TagComponent::from(input) {
        Ok(component) => Ok(component.as_str().to_string()),
        Err(bool_tag_expr::TagError::Empty) => Err(TagComponentError::Empty),
        Err(error) => Err(TagComponentError::Invalid(error.to_string())),
    }
}

/// The text of a tag as the library holds it: an optional name and a value
/// (the texts of a `bool_tag_expr::Tag`)
#[derive(Debug, Clone, PartialEq, Eq)]
pub struct TagText {
    pub name: Option<String>,
    pub value: String,
}

/// Which tag component to focus on.  This is used when creating a new input
/// row.
#[derive(Debug, Clone, Copy, PartialEq, Eq, Structural)]
pub enum TagFocusRequestTarget {
    Name,
    Value,
}

/// Representation of the actions a user can take with respect to managing tag.
#[derive(Debug, Clone, Copy, PartialEq, Eq, Structural)]
pub enum RequestedAction {
    Remove,
    AddNew(TagFocusRequestTarget),
}

/// What is wrong with a tag input, if anything: the name (when not blank) is
/// checked first, then the value.
pub open spec fn tag_input_problem(name: Seq<char>, value: Seq<char>) -> Option<Seq<char>> {
    if trimmed(name).len() != 0 && tag_component_outcome(name) is Err {
        Some(tag_component_error_message(tag_component_outcome(name)->Err_0))
    } else {
        match tag_component_outcome(value) {
            Ok(_) => None,
            Err(None) => Some("Tag name cannot be empty"@),
            Err(Some(msg)) => Some(msg),
        }
    }
}

/// The text of an optional string
pub open spec fn text_view(s: Option<String>) -> Option<Seq<char>> {
    match s {
        Some(t) => Some(t@),
        None => None,
    }
}

/// What is wrong with a tag input, from the outcomes of checking its name
/// (`None` when the name is blank and not checked) and its value
pub open spec fn problem_from_outcomes(
    name: Option<Result<Seq<char>, Option<Seq<char>>>>,
    value: Result<Seq<char>, Option<Seq<char>>>,
) -> Option<Seq<char>> {
    match name {
        Some(Err(e)) => Some(tag_component_error_message(e)),
        _ => match value {
            Ok(_) => None,
            Err(None) => Some("Tag name cannot be empty"@),
            Err(Some(msg)) => Some(msg),
        },
    }
}

/// What is wrong with a tag input, from what the tag crate made of its name
/// (`None` when the name is blank and not checked) and of its value: the
/// name's error first, then the value's; an empty value is reported as an
/// empty tag name
pub fn tag_problem_from(
    name_checked: Option<Result<String, TagComponentError>>,
    value_checked: Result<String, TagComponentError>,
) -> (problem: Option<String>)
    ensures
        text_view(problem) == problem_from_outcomes(
            match name_checked {
                Some(r) => Some(component_result_view(r)),
                None => None,
            },
            component_result_view(value_checked),
        ),
{
    match name_checked {
        Some(Err(TagComponentError::Empty)) => {
            return Some(String::from_str("Tag component cannot be empty"));
        },
        Some(Err(TagComponentError::Invalid(msg))) => {
            return Some(msg);
        },
        _ => {},
    }
    match value_checked {
        Ok(_) => None,
        Err(TagComponentError::Empty) => Some(String::from_str("Tag name cannot be empty")),
        Err(TagComponentError::Invalid(msg)) => Some(msg),
    }
}

/// The synchronous validity that corresponds to a problem (or none)
pub open spec fn validity_for_problem(v: ValiditySynchronous, problem: Option<Seq<char>>) -> bool {
    match problem {
        None => v is Valid,
        Some(msg) => v is Invalid && v->Invalid_0@ == msg,
    }
}

/// GUI component for a tag
#[derive(Debug)]
pub struct TagGui {
    /// The tag name input buffer
    pub name: String,
    /// The tag value input buffer
    pub value: String,
    /// Which tag management action has been requested, if at all.  The user can
    /// add a new tag, or remove an existing one.
    pub requested_action: Option<RequestedAction>,
    /// Which tag component to request focus on.  This is used only when the tag
    /// input row is first created.
    component_to_focus_on: Option<TagFocusRequestTarget>,
    /// Whether or not to show the remove button.  The button is shown when
    /// editing a timeline or entity, but not when bulk editing a tag.
    show_remove_button: ShowRemoveButton,
    /// Everything needed for validation.
    validity: ValitityStatus<(), String>,
}

/// The state of a [`TagGui`]
pub struct TagGuiView {
    pub name: Seq<char>,
    pub value: Seq<char>,
    pub requested_action: Option<RequestedAction>,
    pub component_to_focus_on: Option<TagFocusRequestTarget>,
    pub show_remove_button: ShowRemoveButton,
    pub synchronous: ValiditySynchronous,
}

impl View for TagGui {
    type V = TagGuiView;

    closed spec fn view(&self) -> TagGuiView {
        TagGuiView {
            name: self.name@,
            value: self.value@,
            requested_action: self.requested_action,
            component_to_focus_on: self.component_to_focus_on,
            show_remove_button: self.show_remove_button,
            synchronous: self.validity.synchronous_spec(),
        }
    }
}

/// The overall validity of one tag input
pub open spec fn tag_overall_validity(v: TagGuiView) -> ValidityAsynchronous {
    match v.synchronous {
        ValiditySynchronous::Invalid(msg) => ValidityAsynchronous::Invalid(msg),
        ValiditySynchronous::Valid => ValidityAsynchronous::Valid,
    }
}

impl TagGui {
    /// Create new `TagGui`
    pub fn new(
        show_remove_button: ShowRemoveButton,
        to_focus_on: Option<TagFocusRequestTarget>,
    ) -> (tag: Self)
        ensures
            tag@.name.len() == 0,
            tag@.value.len() == 0,
            tag@.requested_action is None,
            tag@.component_to_focus_on == to_focus_on,
            tag@.show_remove_button == show_remove_button,
            validity_for_problem(tag@.synchronous, tag_input_problem(tag@.name, tag@.value)),
            tag@.synchronous is Invalid,
            tag@.synchronous->Invalid_0@ == "Tag name cannot be empty"@,
    {
        let mut new = Self {
            name: String::new(),
            value: String::new(),
            requested_action: None,
            component_to_focus_on: to_focus_on,
            show_remove_button,
            validity: ValitityStatus::from(ValiditySynchronous::Valid, None),
        };
        new.update_validity_synchronous();
        new
    }

    /// Create a new `TagGui` from a tag
    pub fn from_tag(tag: TagText, show_remove_button: ShowRemoveButton) -> (gui: Self)
        ensures
            gui@.name == match tag.name {
                Some(name) => name@,
                None => Seq::<char>::empty(),
            },
            gui@.value == tag.value@,
            gui@.requested_action is None,
            gui@.component_to_focus_on is None,
            gui@.show_remove_button == show_remove_button,
            gui@.synchronous is Valid,
    {
        let name = match tag.name {
            Some(name) => name,
            None => String::new(),
        };
        Self {
            name,
            value: tag.value,
            requested_action: None,
            component_to_focus_on: None,
            show_remove_button,
            validity: ValitityStatus::from(ValiditySynchronous::Valid, None),
        }
    }

    /// Whether the user has requested to remove the tag
    pub fn to_be_removed(&self) -> (removed: bool)
        ensures
            removed == (self@.requested_action == Some(RequestedAction::Remove)),
    {
        matches!(self.requested_action, Some(RequestedAction::Remove))
    }

    /// The message of an invalid tag
    pub fn invalid_msg(&self) -> (msg: String)
        requires
            self@.synchronous is Invalid,
        ensures
            msg@ == self@.synchronous->Invalid_0@,
    {
        self.validity.synchronous().invalid_msg()
    }

    /// Which component is to be focused on, if one is, which is then
    /// forgotten: the request is used once, when the input row is first
    /// drawn
    pub fn take_focus_request(&mut self) -> (target: Option<TagFocusRequestTarget>)
        ensures
            target == old(self)@.component_to_focus_on,
            final(self)@.component_to_focus_on is None,
            final(self)@.name == old(self)@.name,
            final(self)@.value == old(self)@.value,
            final(self)@.requested_action == old(self)@.requested_action,
            final(self)@.show_remove_button == old(self)@.show_remove_button,
            final(self)@.synchronous == old(self)@.synchronous,
    {
        self.component_to_focus_on.take()
    }

    /// Whether the remove button is shown
    pub fn shows_remove_button(&self) -> (shown: bool)
        ensures
            shown == (self@.show_remove_button is Yes),
    {
        self.show_remove_button == ShowRemoveButton::Yes
    }

    /// What is wrong with the input, if anything
    pub fn input_problem(&self) -> (problem: Option<String>)
        ensures
            match problem {
                None => tag_input_problem(self@.name, self@.value) is None,
                Some(msg) => tag_input_problem(self@.name, self@.value) == Some(msg@),
            },
            trimmed(self@.value).len() == 0 && trimmed(self@.name).len() == 0 ==> (problem matches Some(
                msg,
            ) && msg@ == "Tag name cannot be empty"@),
    {
        let name_checked = if is_blank(self.name.as_str()) {
            None
        } else {
            Some(tag_component_from(self.name.as_str()))
        };
        let value_checked = tag_component_from(self.value.as_str());
        tag_problem_from(name_checked, value_checked)
    }

    /// The tag that the input holds, if the input is valid
    pub fn checked_tag_text(&self) -> (tag: Option<TagText>)
        ensures
            tag is Some <==> tag_input_problem(self@.name, self@.value) is None,
            tag matches Some(t) ==> ({
                &&& t.name matches Some(name) ==> trimmed(self@.name).len() != 0
                    && tag_component_outcome(self@.name) == Ok::<Seq<char>, Option<Seq<char>>>(
                    name@,
                )
                &&& t.name is None ==> trimmed(self@.name).len() == 0
                &&& tag_component_outcome(self@.value) == Ok::<Seq<char>, Option<Seq<char>>>(
                    t.value@,
                )
            }),
    {
        match self.input_problem() {
            Some(_) => None,
            None => Some(self.to_tag_text()),
        }
    }

    /// The tag that the input holds, with name and value as the tag crate
    /// normalises them (a blank name is no name)
    pub fn to_tag_text(&self) -> (tag: TagText)
        requires
            tag_input_problem(self@.name, self@.value) is None,
        ensures
            tag.name matches Some(name) ==> trimmed(self@.name).len() != 0
                && tag_component_outcome(self@.name) == Ok::<Seq<char>, Option<Seq<char>>>(
                name@,
            ),
            tag.name is None ==> trimmed(self@.name).len() == 0,
            tag_component_outcome(self@.value) == Ok::<Seq<char>, Option<Seq<char>>>(
                tag.value@,
            ),
    {
        let name = if is_blank(self.name.as_str()) {
            None
        } else {
            match tag_component_from(self.name.as_str()) {
                Ok(name) => Some(name),
                Err(_) => {
                    assert(false);
                    None
                },
            }
        };
        let value = match tag_component_from(self.value.as_str()) {
            Ok(value) => value,
            Err(_) => {
                assert(false);
                String::new()
            },
        };
        TagText { name, value }
    }
}

impl ToOpenTimelineType<TagText> for TagGui {
    open spec fn is_convertible(&self) -> bool {
        tag_input_problem(self@.name, self@.value) is None
    }

    fn to_opentimeline_type(&self) -> (tag: TagText)
        ensures
            tag.name matches Some(name) ==> trimmed(self@.name).len() != 0
                && tag_component_outcome(self@.name) == Ok::<Seq<char>, Option<Seq<char>>>(
                name@,
            ),
            tag.name is None ==> trimmed(self@.name).len() == 0,
            tag_component_outcome(self@.value) == Ok::<Seq<char>, Option<Seq<char>>>(
                tag.value@,
            ),
    {
        self.to_tag_text()
    }
}

impl ValidSynchronous for TagGui {
    open spec fn synchronous_validity(&self) -> ValiditySynchronous {
        self@.synchronous
    }

    open spec fn checks_give(&self, v: ValiditySynchronous) -> bool {
        validity_for_problem(v, tag_input_problem(self@.name, self@.value))
    }

    fn is_valid_synchronous(&self) -> (valid: bool) {
        self.validity.synchronous().is_valid()
    }

    fn update_validity_synchronous(&mut self)
        ensures
            validity_for_problem(
                final(self)@.synchronous,
                tag_input_problem(old(self)@.name, old(self)@.value),
            ),
            trimmed(old(self)@.value).len() == 0 && trimmed(old(self)@.name).len() == 0 ==> (
            final(self)@.synchronous is Invalid && final(self)@.synchronous->Invalid_0@
                == "Tag name cannot be empty"@),
            final(self)@.name == old(self)@.name,
            final(self)@.value == old(self)@.value,
            final(self)@.requested_action == old(self)@.requested_action,
            final(self)@.component_to_focus_on == old(self)@.component_to_focus_on,
            final(self)@.show_remove_button == old(self)@.show_remove_button,
    {
        match self.input_problem() {
            Some(msg) => self.validity.set_synchronous(ValiditySynchronous::Invalid(msg)),
            None => self.validity.set_synchronous(ValiditySynchronous::Valid),
        }
    }

    fn validity_synchronous(&self) -> (validity: ValiditySynchronous) {
        self.validity.synchronous()
    }
}

impl ValidAsynchronous for TagGui {
    type Error = String;

    open spec fn asynchronous_validity(&self) -> Option<Result<(), String>> {
        Some(Ok(()))
    }

    fn is_valid_asynchronous(&self) -> (validity: Option<Result<(), String>>) {
        Some(Ok(()))
    }

    /// A tag needs no database check: nothing is done
    fn trigger_asynchronous_validity_update(&mut self)
        ensures
            final(self)@ == old(self)@,
    {
    }

    /// A tag needs no database check: nothing is done
    fn check_for_asynchronous_validity_response(&mut self)
        ensures
            final(self)@ == old(self)@,
    {
    }
}

impl Valid for TagGui {

}

/// The views of a list of tag inputs
pub open spec fn tag_views(tags: Seq<TagGui>) -> Seq<TagGuiView> {
    tags.map_values(|t: TagGui| t@)
}

/// The focus target of the last tag input that asks for a new input after it
pub open spec fn last_add_request(tags: Seq<TagGuiView>) -> Option<TagFocusRequestTarget>
    decreases tags.len(),
{
    if tags.len() == 0 {
        None
    } else {
        match tags.last().requested_action {
            Some(RequestedAction::AddNew(target)) => Some(target),
            _ => last_add_request(tags.drop_last()),
        }
    }
}

/// The tag input with its request answered
pub open spec fn request_cleared(t: TagGuiView) -> TagGuiView {
    TagGuiView { requested_action: None, ..t }
}

/// The tag inputs that stay after the requests are answered: those asking to
/// be removed go, the others stay in order with no request left
pub open spec fn inputs_kept(tags: Seq<TagGuiView>) -> Seq<TagGuiView>
    decreases tags.len(),
{
    if tags.len() == 0 {
        Seq::empty()
    } else {
        let kept = inputs_kept(tags.drop_last());
        if tags.last().requested_action == Some(RequestedAction::Remove) {
            kept
        } else {
            kept.push(request_cleared(tags.last()))
        }
    }
}

/// A new, empty tag input that is to be focused on
pub open spec fn is_new_tag_input(t: TagGuiView, target: TagFocusRequestTarget) -> bool {
    &&& t.name.len() == 0
    &&& t.value.len() == 0
    &&& t.requested_action is None
    &&& t.component_to_focus_on == Some(target)
    &&& t.show_remove_button is Yes
    &&& t.synchronous is Invalid
}

/// GUI component that manages `TagGui`s
#[derive(Debug)]
pub struct TagsGui {
    /// All the tags held and shown to the user.
    tags: Vec<TagGui>,
    /// Tracks the overall validity of all the tags held.  Every tag must be
    /// valid for this to say they are so.
    validity: ValitityStatus<(), String>,
}

/// The state of a [`TagsGui`]
pub struct TagsGuiView {
    pub tags: Seq<TagGuiView>,
    pub synchronous: ValiditySynchronous,
}

impl View for TagsGui {
    type V = TagsGuiView;

    closed spec fn view(&self) -> TagsGuiView {
        TagsGuiView { tags: tag_views(self.tags@), synchronous: self.validity.synchronous_spec() }
    }
}

/// The synchronous validities of tag inputs
pub open spec fn synchronous_validities(tags: Seq<TagGuiView>) -> Seq<ValiditySynchronous> {
    tags.map_values(|t: TagGuiView| t.synchronous)
}

/// The overall validities of tag inputs
pub open spec fn overall_validities(tags: Seq<TagGuiView>) -> Seq<ValidityAsynchronous> {
    tags.map_values(|t: TagGuiView| tag_overall_validity(t))
}

impl TagsGui {
    /// Create a new `TagsGui`
    pub fn new() -> (tags: Self)
        ensures
            tags@.tags.len() == 0,
            tags@.synchronous is Valid,
    {
        Self {
            tags: Vec::new(),
            validity: ValitityStatus::from(ValiditySynchronous::Valid, Some(Ok(()))),
        }
    }

    /// The tag inputs held, from tags
    pub fn from_tags(stored_tags: Option<Vec<TagText>>) -> (gui: Self)
        ensures
            gui@.tags.len() == match stored_tags {
                Some(tags) => tags.len(),
                None => 0,
            },
            forall|i: int|
                0 <= i < gui@.tags.len() ==> {
                    let t = #[trigger] gui@.tags[i];
                    let tag = stored_tags->Some_0@[i];
                    &&& t.value == tag.value@
                    &&& t.name == match tag.name {
                        Some(name) => name@,
                        None => Seq::<char>::empty(),
                    }
                    &&& t.requested_action is None
                    &&& t.show_remove_button is Yes
                    &&& t.synchronous is Valid
                },
            gui@.synchronous is Valid,
    {
        let mut tags: Vec<TagGui> = Vec::new();
        match stored_tags {
            None => {},
            Some(stored) => {
                let ghost whole = stored@;
                let mut stored = stored;
                let mut i: usize = 0;
                let n = stored.len();
                while stored.len() > 0
                    invariant
                        whole.len() == n,
                        i + stored.len() == n,
                        stored@ == whole.subrange(i as int, n as int),
                        tags@.len() == i,
                        forall|k: int|
                            0 <= k < i ==> {
                                let t = #[trigger] tag_views(tags@)[k];
                                let tag = whole[k];
                                &&& t.value == tag.value@
                                &&& t.name == match tag.name {
                                    Some(name) => name@,
                                    None => Seq::<char>::empty(),
                                }
                                &&& t.requested_action is None
                                &&& t.show_remove_button is Yes
                                &&& t.synchronous is Valid
                            },
                    decreases stored.len(),
                {
                    let ghost before = tags@;
                    let tag = stored.remove(0);
                    proof {
                        assert(stored@ =~= whole.subrange(i + 1, n as int));
                        assert(tag == whole[i as int]);
                    }
                    tags.push(TagGui::from_tag(tag, ShowRemoveButton::Yes));
                    proof {
                        assert forall|k: int| 0 <= k < i + 1 implies {
                            let t = #[trigger] tag_views(tags@)[k];
                            let tag = whole[k];
                            &&& t.value == tag.value@
                            &&& t.name == match tag.name {
                                Some(name) => name@,
                                None => Seq::<char>::empty(),
                            }
                            &&& t.requested_action is None
                            &&& t.show_remove_button is Yes
                            &&& t.synchronous is Valid
                        } by {
                            if k < i {
                                assert(tags@[k] == before[k]);
                                assert(tag_views(tags@)[k] == tag_views(before)[k]);
                            } else {
                                assert(tag_views(tags@)[k] == tags@[k]@);
                            }
                        }
                    }
                    i = i + 1;
                }
            },
        }
        Self { tags, validity: ValitityStatus::from(ValiditySynchronous::Valid, Some(Ok(()))) }
    }

    /// Add a new empty tag input to the list.  Passing along the focus target
    /// request
    fn add_empty_tag(&mut self, tag_focus_target: Option<TagFocusRequestTarget>)
        ensures
            final(self)@.tags.len() == old(self)@.tags.len() + 1,
            final(self)@.tags.drop_last() == old(self)@.tags,
            final(self)@.tags.last().name.len() == 0,
            final(self)@.tags.last().value.len() == 0,
            final(self)@.tags.last().requested_action is None,
            final(self)@.tags.last().component_to_focus_on == tag_focus_target,
            final(self)@.tags.last().show_remove_button is Yes,
            final(self)@.tags.last().synchronous is Invalid,
            final(self)@.synchronous == old(self)@.synchronous,
    {
        self.tags.push(TagGui::new(ShowRemoveButton::Yes, tag_focus_target));
    }

    /// Get the GUI tags held
    pub fn tags(&self) -> (tags: &Vec<TagGui>)
        ensures
            tag_views(tags@) == self@.tags,
    {
        &self.tags
    }

    /// The tag inputs, to be drawn and edited
    pub fn tags_mut(&mut self) -> (tags: &mut Vec<TagGui>)
        ensures
            tag_views(tags@) == old(self)@.tags,
            final(self)@.tags == tag_views(final(tags)@),
            final(self)@.synchronous == old(self)@.synchronous,
    {
        &mut self.tags
    }
}


impl TagsGui {
    /// Whether the tags are synchronously valid
    pub fn is_valid_synchronous(&self) -> (valid: bool)
        ensures
            valid == (self@.synchronous is Valid),
    {
        self.validity.synchronous().is_valid()
    }

    /// Get the synchronous validity
    pub fn validity_synchronous(&self) -> (validity: ValiditySynchronous)
        ensures
            validity == self@.synchronous,
    {
        self.validity.synchronous()
    }

    /// Re-run the synchronous validation checks: the tags are invalid with the
    /// message of the first invalid tag, and valid when every tag is.
    pub fn update_validity_synchronous(&mut self)
        ensures
            final(self)@.tags == old(self)@.tags,
            (final(self)@.synchronous is Valid) == (first_invalid(
                synchronous_validities(old(self)@.tags),
            ) is Valid),
            final(self)@.synchronous is Invalid ==> final(self)@.synchronous->Invalid_0@
                == first_invalid(synchronous_validities(old(self)@.tags))->Invalid_0@,
    {
        let mut validities: Vec<ValiditySynchronous> = Vec::new();
        for i in 0..self.tags.len()
            invariant
                validities@ == synchronous_validities(self@.tags).take(i as int),
        {
            validities.push(self.tags[i].validity_synchronous());
            proof {
                assert(validities@ =~= synchronous_validities(self@.tags).take(i + 1));
            }
        }
        proof {
            assert(validities@ =~= synchronous_validities(self@.tags));
        }
        let first = crate::validity::combined_validity_synchronous(&validities);
        match first {
            ValiditySynchronous::Invalid(msg) => {
                self.validity.set_synchronous(ValiditySynchronous::Invalid(msg));
            },
            ValiditySynchronous::Valid => {
                self.validity.set_synchronous(ValiditySynchronous::Valid);
            },
        }
    }

    /// Whether the data is both synchronoulsy & asynchronously valid or not:
    /// the first tag that is not valid decides.
    pub fn validity(&self) -> (validity: ValidityAsynchronous)
        ensures
            validity == first_not_valid(overall_validities(self@.tags)),
    {
        let mut validities: Vec<ValidityAsynchronous> = Vec::new();
        for i in 0..self.tags.len()
            invariant
                validities@ == overall_validities(self@.tags).take(i as int),
        {
            let v = self.tags[i].validity();
            proof {
                assert(tag_overall_validity(self.tags@[i as int]@) == v);
            }
            validities.push(v);
            proof {
                assert(validities@ =~= overall_validities(self@.tags).take(i + 1));
            }
        }
        proof {
            assert(validities@ =~= overall_validities(self@.tags));
        }
        combined_validity(&validities)
    }

    /// Answer the requests of the tag inputs after they have been drawn:
    /// inputs that asked to be removed go, and a new empty input is added,
    /// focused as the last input that asked for one wanted, or on its value
    /// when the add button was clicked.
    pub fn apply_requests(&mut self, add_clicked: bool)
        ensures
            ({
                let target = if add_clicked {
                    Some(TagFocusRequestTarget::Value)
                } else {
                    last_add_request(old(self)@.tags)
                };
                match target {
                    None => final(self)@.tags == inputs_kept(old(self)@.tags),
                    Some(t) => {
                        &&& final(self)@.tags.drop_last() == inputs_kept(old(self)@.tags)
                        &&& final(self)@.tags.len() == inputs_kept(old(self)@.tags).len() + 1
                        &&& is_new_tag_input(final(self)@.tags.last(), t)
                    },
                }
            }),
            final(self)@.synchronous == old(self)@.synchronous,
    {
        let ghost whole = old(self)@.tags;
        let mut old_tags: Vec<TagGui> = Vec::new();
        std::mem::swap(&mut old_tags, &mut self.tags);
        let n = old_tags.len();
        let mut kept: Vec<TagGui> = Vec::new();
        let mut add_new_tag: Option<TagFocusRequestTarget> = None;
        let mut i: usize = 0;
        while old_tags.len() > 0
            invariant
                whole.len() == n,
                i + old_tags.len() == n,
                tag_views(old_tags@) == whole.subrange(i as int, n as int),
                tag_views(kept@) == inputs_kept(whole.take(i as int)),
                add_new_tag == last_add_request(whole.take(i as int)),
            decreases old_tags.len(),
        {
            let ghost rest = old_tags@;
            let mut tag = old_tags.remove(0);
            proof {
                assert(tag_views(rest)[0] == tag@);
                assert forall|k: int| 0 <= k < old_tags@.len() implies tag_views(old_tags@)[k]
                    == whole.subrange(i + 1, n as int)[k] by {
                    assert(old_tags@[k] == rest[k + 1]);
                    assert(tag_views(rest)[k + 1] == rest[k + 1]@);
                }
                assert(tag_views(old_tags@) =~= whole.subrange(i + 1, n as int));
                assert(whole.take(i + 1).drop_last() =~= whole.take(i as int));
                assert(whole.take(i + 1).last() == tag@);
            }
            let ghost before = kept@;
            if let Some(RequestedAction::AddNew(target)) = tag.requested_action {
                add_new_tag = Some(target);
                tag.requested_action = None;
                kept.push(tag);
                proof {
                    assert(tag_views(kept@) =~= tag_views(before).push(kept@.last()@));
                }
            } else if !tag.to_be_removed() {
                proof {
                    assert(request_cleared(tag@) == tag@);
                }
                kept.push(tag);
                proof {
                    assert(tag_views(kept@) =~= tag_views(before).push(kept@.last()@));
                }
            }
            i = i + 1;
        }
        proof {
            assert(whole.take(n as int) =~= whole);
        }
        self.tags = kept;
        if add_clicked {
            add_new_tag = Some(TagFocusRequestTarget::Value);
        }
        if let Some(target) = add_new_tag {
            self.add_empty_tag(Some(target));
        }
    }
}

/// After the requests are answered, no tag input asks for anything any more
pub proof fn law_no_request_left_after_answering(tags: Seq<TagGuiView>)
    ensures
        forall|i: int|
            0 <= i < inputs_kept(tags).len() ==> (#[trigger] inputs_kept(tags)[i]).requested_action is None,
    decreases tags.len(),
{
    if tags.len() > 0 {
        law_no_request_left_after_answering(tags.drop_last());
    }
}

/// Answering the requests removes exactly the tag inputs that asked to be
/// removed: those that did not ask stay, in order and unchanged
pub proof fn law_inputs_without_requests_stay(tags: Seq<TagGuiView>)
    requires
        forall|i: int| 0 <= i < tags.len() ==> (#[trigger] tags[i]).requested_action is None,
    ensures
        inputs_kept(tags) == tags,
        last_add_request(tags) is None,
    decreases tags.len(),
{
    if tags.len() > 0 {
        let d = tags.drop_last();
        assert forall|i: int| 0 <= i < d.len() implies (#[trigger] d[i]).requested_action is None by {
            assert(d[i] == tags[i]);
        }
        law_inputs_without_requests_stay(d);
        assert(request_cleared(tags.last()) == tags.last());
        assert(d.push(tags.last()) =~= tags);
    }
}

} // verus!
