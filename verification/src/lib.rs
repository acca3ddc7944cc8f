//! Verified core of the OpenTimeline desktop GUI: input validation, dates,
//! pagination, the game flow, tag inputs, the search and counts panels, and
//! the choices that the panels and windows make in response to the user and
//! to the database's answers.

pub mod app_info;
pub mod backup;
pub mod colours;
pub mod common;
pub mod counts;
pub mod dates;
pub mod decimal;
pub mod edit_window;
pub mod enums;
pub mod games;
pub mod helpers;
pub mod paginator;
pub mod reload;
pub mod search;
pub mod settings;
pub mod tabs;
pub mod tag_edit;
pub mod tags;
pub mod text;
pub mod timeline_view;
pub mod validity;
pub mod windows;
