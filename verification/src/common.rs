//! What the panels and windows share: the kinds of CRUD request, what a name
//! belongs to, the traits that panels implement, and keyboard shortcuts.

use vstd::prelude::*;

verus! {

/// Used to indicate whether the CRUD operation was create/update or delete
#[derive(Debug, Clone, Copy, PartialEq, Eq, Structural)]
pub enum CrudOperationRequested {
    CreateOrUpdate,
    Delete,
}

/// Represents whether we're working with a timeline or entity name.
#[derive(Debug, Clone, Copy, PartialEq, Eq, Structural)]
pub enum EntityOrTimeline {
    Timeline,
    Entity,
}

/// Implementing types can be validated and converted from their GUI input
/// representation into their database representation.
pub trait ToOpenTimelineType<T> {
    /// Whether the input is valid, so that it can be converted
    spec fn is_convertible(&self) -> bool;

    /// Used to get the database representation of the data from GUI
    /// representation now that we know that it is valid.
    fn to_opentimeline_type(&self) -> T
        requires
            self.is_convertible(),
    ;
}

/// Implementing types can be reloaded.  This is used when data changes
/// elsewhere (e.g. when an entity is deleted)
pub trait Reload {
    /// Request that the data held by some data structure is reloaded from the
    /// database.
    fn request_reload(&mut self);

    /// If a reload has been requested one can use this to check for responses
    /// from the database.
    fn check_reload_response(&mut self);
}

/// Implementing types can check for updates and indicate whether they're
/// waiting for updates, so that the app redraws only while something is
/// awaited.
pub trait CheckForUpdates {
    /// Check for any updates
    fn check_for_updates(&mut self);

    /// Whether the thing is waiting for updates.
    fn waiting_for_updates(&mut self) -> bool;
}

/// The state of the keyboard in one frame: whether the key of a shortcut
/// was pressed, and which modifiers were held
#[derive(Debug, Clone, Copy, PartialEq, Eq, Structural)]
pub struct KeyPress {
    pub key_pressed: bool,
    pub shift: bool,
    pub mac_cmd: bool,
    pub command: bool,
}

/// The key was pressed with the command key held (`cmd` on macOS, `ctrl`
/// elsewhere)
pub open spec fn command_chord(keys: KeyPress) -> bool {
    keys.key_pressed && (keys.mac_cmd || keys.command)
}

/// Helpers for handling keyboard shortcuts
pub struct Shortcut {}

impl Shortcut {
    /// `cmd` + `s`: save; `keys` is the state of the `s` key
    pub fn save(keys: KeyPress) -> (pressed: bool)
        ensures
            pressed == command_chord(keys),
    {
        keys.key_pressed && (keys.mac_cmd || keys.command)
    }

    /// `cmd` + `w`: close the window; `keys` is the state of the `w` key
    pub fn close_window(keys: KeyPress) -> (pressed: bool)
        ensures
            pressed == command_chord(keys),
    {
        keys.key_pressed && (keys.mac_cmd || keys.command)
    }

    /// `cmd` + `enter`; `keys` is the state of the `enter` key
    pub fn cmd_and_enter(keys: KeyPress) -> (pressed: bool)
        ensures
            pressed == command_chord(keys),
    {
        keys.key_pressed && (keys.mac_cmd || keys.command)
    }

    /// `cmd` + `shift` + `k`; `keys` is the state of the `k` key
    pub fn cmd_shift_and_k(keys: KeyPress) -> (pressed: bool)
        ensures
            pressed == (command_chord(keys) && keys.shift),
    {
        keys.key_pressed && keys.shift && (keys.mac_cmd || keys.command)
    }
}

/// The modifiers of a shortcut
#[derive(Debug, Clone, Copy, PartialEq, Eq, Structural)]
pub struct ShortcutModifiers {
    pub mac_cmd: bool,
    pub ctrl: bool,
    pub shift: bool,
}

/// A new window asked for by a global shortcut
#[derive(Debug, Clone, Copy, PartialEq, Eq, Structural)]
pub enum NewWindowRequest {
    /// A window for creating an entity (`cmd` + `shift` + `E`)
    CreateEntity,
    /// A window for creating a timeline (`cmd` + `shift` + `T`)
    CreateTimeline,
}

/// The OpenTimeline shortcuts that work in every window
pub struct OpenTimelineShortcut {}

impl OpenTimelineShortcut {
    /// The modifiers of the global shortcuts: `cmd` and `shift` on macOS,
    /// `ctrl` and `shift` elsewhere
    pub fn modifiers(on_mac: bool) -> (m: ShortcutModifiers)
        ensures
            m == (ShortcutModifiers { mac_cmd: on_mac, ctrl: !on_mac, shift: true }),
    {
        ShortcutModifiers { mac_cmd: on_mac, ctrl: !on_mac, shift: true }
    }

    /// The letter key of the shortcut that asks for the window
    pub fn key(request: NewWindowRequest) -> (key: char)
        ensures
            key == (match request {
                NewWindowRequest::CreateEntity => 'E',
                NewWindowRequest::CreateTimeline => 'T',
            }),
    {
        match request {
            NewWindowRequest::CreateEntity => 'E',
            NewWindowRequest::CreateTimeline => 'T',
        }
    }

    /// The windows asked for, from which shortcuts were used this frame: an
    /// entity window first, then a timeline window
    pub fn requests(entity_used: bool, timeline_used: bool) -> (requests: Vec<NewWindowRequest>)
        ensures
            requests@ == (if entity_used {
                seq![NewWindowRequest::CreateEntity]
            } else {
                Seq::empty()
            }) + (if timeline_used {
                seq![NewWindowRequest::CreateTimeline]
            } else {
                Seq::empty()
            }),
    {
        let mut requests: Vec<NewWindowRequest> = Vec::new();
        if entity_used {
            requests.push(NewWindowRequest::CreateEntity);
        }
        if timeline_used {
            requests.push(NewWindowRequest::CreateTimeline);
        }
        proof {
            assert(requests@ =~= (if entity_used {
                seq![NewWindowRequest::CreateEntity]
            } else {
                Seq::empty()
            }) + (if timeline_used {
                seq![NewWindowRequest::CreateTimeline]
            } else {
                Seq::empty()
            }));
        }
        requests
    }
}

/// The validity of a name from the database's answer to whether it is
/// taken: free names are valid, a taken name gets the error `taken`, and a
/// failed check its own error
pub fn name_availability<E>(answer: Result<bool, E>, taken: E) -> (validity: Result<(), E>)
    ensures
        validity == (match answer {
            Ok(false) => Ok(()),
            Ok(true) => Err(taken),
            Err(e) => Err(e),
        }),
{
    match answer {
        Ok(false) => Ok(()),
        Ok(true) => Err(taken),
        Err(e) => Err(e),
    }
}

} // verus!
