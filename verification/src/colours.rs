//! The colour inputs of the app colours window: each colour as the three
//! bytes (red, green, blue) that its colour picker edits; and the colour
//! themes.

use vstd::prelude::*;

verus! {

/// The inputs of the timeline's colours
#[derive(Debug, Clone, Copy, PartialEq, Eq)]
pub struct TimelineColoursRaw {
    pub background_a: [u8; 3],
    pub background_b: [u8; 3],
    pub dividing_line_colour: [u8; 3],
    pub entity_text_box_fill_colour: [u8; 3],
    pub entity_date_box_fill_colour: [u8; 3],
    pub entity_text_colour: [u8; 3],
    pub heading_text_colour: [u8; 3],
    pub heading_fill_colour: [u8; 3],
}

/// The inputs of the app's colours
#[derive(Debug, Clone, Copy, PartialEq, Eq)]
pub struct AppColoursRaw {
    pub text: [u8; 3],
    pub panel: [u8; 3],
    pub button_fill: [u8; 3],
    pub separator_lines: [u8; 3],
    pub text_inputs: [u8; 3],
    pub checkbox_and_radio: [u8; 3],
    pub side_panel_menu_button_fill: [u8; 3],
    pub side_panel_menu_button_text: [u8; 3],
    pub donate_button_fill: [u8; 3],
    pub donate_button_text: [u8; 3],
    pub hyperlink: [u8; 3],
}

/// The colour theme of the app: the system's, a built-in one, or custom
/// colours
#[derive(Debug, Clone, Copy, PartialEq, Eq)]
pub enum ColourTheme {
    System,
    Light,
    Dark,
    Siphonophore,
    Custom(AppColoursRaw),
}

} // verus!
