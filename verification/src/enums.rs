//! Small enumerations shared by the GUI components.

use vstd::prelude::*;

verus! {

/// Whether to show the remove button
#[derive(Debug, Clone, Copy, PartialEq, Eq, Structural)]
pub enum ShowRemoveButton {
    Yes,
    No,
}

/// Used to indicate whether the window was opened for creating or editing
/// something.
#[derive(Debug, Clone, Copy, PartialEq, Eq, Structural)]
pub enum CreateOrEdit {
    Edit,
    Create,
}

} // verus!
