//! The tabs of the main window's side bar.

use vstd::prelude::*;

verus! {

/// Which of the side bar tabs of the main window is selected
#[derive(Debug, Clone, Copy, PartialEq, Eq, Structural)]
pub enum MainTabSelected {
    Search,
    Entities,
    Tags,
    Timelines,
    Stats,
    BackupRestoreMerge,
    GameDecades,
    GameLeftRight,
    GameOrderEntities,
    GameAliveWhen,
    GameWhichDate,
    Settings,
    AppInfo,
}

/// The label of a tab, which is also the heading of its panel
pub open spec fn tab_label(tab: MainTabSelected) -> Seq<char> {
    match tab {
        MainTabSelected::Search => "Search"@,
        MainTabSelected::Entities => "Entities"@,
        MainTabSelected::Tags => "Tags"@,
        MainTabSelected::Timelines => "Timelines"@,
        MainTabSelected::Stats => "Stats"@,
        MainTabSelected::BackupRestoreMerge => "Backup | Restore | Merge"@,
        MainTabSelected::GameDecades => "Decades"@,
        MainTabSelected::GameLeftRight => "Left/Right"@,
        MainTabSelected::GameOrderEntities => "Order Entities"@,
        MainTabSelected::GameAliveWhen => "Alive When"@,
        MainTabSelected::GameWhichDate => "Which Date"@,
        MainTabSelected::Settings => "Settings"@,
        MainTabSelected::AppInfo => "Information"@,
    }
}

/// Whether the tab's panel is one of the games
pub open spec fn is_game_tab(tab: MainTabSelected) -> bool {
    tab is GameDecades || tab is GameLeftRight || tab is GameOrderEntities || tab is GameAliveWhen
        || tab is GameWhichDate
}

impl MainTabSelected {
    /// The text of the tab's label
    pub fn to_label_text(&self) -> (label: String)
        ensures
            label@ == tab_label(*self),
    {
        match self {
            MainTabSelected::Search => String::from_str("Search"),
            MainTabSelected::Entities => String::from_str("Entities"),
            MainTabSelected::Tags => String::from_str("Tags"),
            MainTabSelected::Timelines => String::from_str("Timelines"),
            MainTabSelected::Stats => String::from_str("Stats"),
            MainTabSelected::BackupRestoreMerge => String::from_str("Backup | Restore | Merge"),
            MainTabSelected::GameDecades => String::from_str("Decades"),
            MainTabSelected::GameLeftRight => String::from_str("Left/Right"),
            MainTabSelected::GameOrderEntities => String::from_str("Order Entities"),
            MainTabSelected::GameAliveWhen => String::from_str("Alive When"),
            MainTabSelected::GameWhichDate => String::from_str("Which Date"),
            MainTabSelected::Settings => String::from_str("Settings"),
            MainTabSelected::AppInfo => String::from_str("Information"),
        }
    }

    /// Whether the tab's panel is one of the games
    pub fn is_game(&self) -> (game: bool)
        ensures
            game == is_game_tab(*self),
    {
        match self {
            MainTabSelected::GameDecades | MainTabSelected::GameLeftRight
            | MainTabSelected::GameOrderEntities | MainTabSelected::GameAliveWhen
            | MainTabSelected::GameWhichDate => true,
            _ => false,
        }
    }

    /// Whether the break-out windows are drawn along with the tab's panel:
    /// they are, but for the games and the backup panel
    pub fn draws_break_out_windows(&self) -> (draws: bool)
        ensures
            draws == !(is_game_tab(*self) || *self is BackupRestoreMerge),
    {
        !(self.is_game() || *self == MainTabSelected::BackupRestoreMerge)
    }
}

/// The side bar's tabs, in the order in which they are drawn
pub fn side_bar_tabs() -> (tabs: Vec<MainTabSelected>)
    ensures
        tabs@ == seq![
            MainTabSelected::Search,
            MainTabSelected::Entities,
            MainTabSelected::Tags,
            MainTabSelected::Timelines,
            MainTabSelected::Stats,
            MainTabSelected::BackupRestoreMerge,
            MainTabSelected::GameDecades,
            MainTabSelected::GameLeftRight,
            MainTabSelected::GameOrderEntities,
            MainTabSelected::GameAliveWhen,
            MainTabSelected::GameWhichDate,
            MainTabSelected::Settings,
            MainTabSelected::AppInfo,
        ],
{
    vec![
        MainTabSelected::Search,
        MainTabSelected::Entities,
        MainTabSelected::Tags,
        MainTabSelected::Timelines,
        MainTabSelected::Stats,
        MainTabSelected::BackupRestoreMerge,
        MainTabSelected::GameDecades,
        MainTabSelected::GameLeftRight,
        MainTabSelected::GameOrderEntities,
        MainTabSelected::GameAliveWhen,
        MainTabSelected::GameWhichDate,
        MainTabSelected::Settings,
        MainTabSelected::AppInfo,
    ]
}

} // verus!
