//! The settings panel: choosing the database file and the colour theme, and
//! what the panel shows while the choices are saved and put to use.

use crate::colours::{AppColoursRaw, ColourTheme};
use crate::helpers::joined;
use vstd::prelude::*;

verus! {

/// The status that the settings panel shows
#[derive(Debug)]
pub enum SettingsStatus<E> {
    Ready,
    WaitingForResponse,
    SuccessfullyChangedDatabase,
    DatabaseHasDifferentSchema,
    SuccessfullyChangedTheme,
    CrudError(E),
}

/// The text shown for the status (`None` while waiting: a spinner is shown)
pub open spec fn settings_status_message(status: SettingsStatus<String>) -> Option<Seq<char>> {
    match status {
        SettingsStatus::Ready => Some("Ready"@),
        SettingsStatus::WaitingForResponse => None,
        SettingsStatus::SuccessfullyChangedDatabase => Some("Successfully switched database"@),
        SettingsStatus::DatabaseHasDifferentSchema => Some(
            "Error: selected database has incompatible schema"@,
        ),
        SettingsStatus::SuccessfullyChangedTheme => Some("Successfully switched theme"@),
        SettingsStatus::CrudError(e) => Some("Error: "@ + e@),
    }
}

impl SettingsStatus<String> {
    /// The text shown for the status, the error given by its message
    pub fn message(&self) -> (text: Option<String>)
        ensures
            match text {
                Some(t) => settings_status_message(*self) == Some(t@),
                None => settings_status_message(*self) is None,
            },
    {
        proof {
            reveal_strlit("");
            assert(forall|t: Seq<char>| t + ""@ =~= t);
        }
        match self {
            SettingsStatus::Ready => Some(String::from_str("Ready")),
            SettingsStatus::WaitingForResponse => None,
            SettingsStatus::SuccessfullyChangedDatabase => Some(
                String::from_str("Successfully switched database"),
            ),
            SettingsStatus::DatabaseHasDifferentSchema => Some(
                String::from_str("Error: selected database has incompatible schema"),
            ),
            SettingsStatus::SuccessfullyChangedTheme => Some(
                String::from_str("Successfully switched theme"),
            ),
            SettingsStatus::CrudError(e) => Some(joined("Error: ", e.as_str(), "")),
        }
    }
}

/// The answer to saving the config with a newly chosen database
#[derive(Debug)]
pub enum ConfigSaveAnswer<E> {
    /// The config was saved and the database is ready
    Saved,
    /// The database could not be migrated: it likely belongs to another
    /// application
    IncompatibleSchema,
    /// Saving failed otherwise
    Failed(E),
}

/// The model of the settings panel
pub struct SettingsView<E> {
    pub status: SettingsStatus<E>,
    pub awaiting_config_save: bool,
    pub awaiting_theme_save: bool,
    pub awaiting_pool_switch: bool,
    pub show_save_colours_button: bool,
    /// The colour theme in use
    pub theme: ColourTheme,
    /// The custom colours kept for when the custom theme is chosen
    pub custom_theme: AppColoursRaw,
}

/// The requests of the settings panel and what it shows of them
pub struct SettingsRequests<E> {
    status: SettingsStatus<E>,
    awaiting_config_save: bool,
    awaiting_theme_save: bool,
    awaiting_pool_switch: bool,
    show_save_colours_button: bool,
    theme: ColourTheme,
    custom_theme: AppColoursRaw,
}

impl<E> View for SettingsRequests<E> {
    type V = SettingsView<E>;

    closed spec fn view(&self) -> SettingsView<E> {
        SettingsView {
            status: self.status,
            awaiting_config_save: self.awaiting_config_save,
            awaiting_theme_save: self.awaiting_theme_save,
            awaiting_pool_switch: self.awaiting_pool_switch,
            show_save_colours_button: self.show_save_colours_button,
            theme: self.theme,
            custom_theme: self.custom_theme,
        }
    }
}

/// After a database file was chosen: the config is being saved
pub open spec fn after_database_chosen<E>(v: SettingsView<E>) -> SettingsView<E> {
    SettingsView { status: SettingsStatus::WaitingForResponse, awaiting_config_save: true, ..v }
}

/// After the theme `theme` was chosen, or the custom theme was to be saved
/// (`theme` being the one in use): it is the theme in use, custom colours are
/// kept as the custom theme, and the config is being saved
pub open spec fn after_theme_chosen<E>(v: SettingsView<E>, theme: ColourTheme) -> SettingsView<E> {
    SettingsView {
        status: SettingsStatus::WaitingForResponse,
        awaiting_theme_save: true,
        theme,
        custom_theme: match theme {
            ColourTheme::Custom(colours) => colours,
            _ => v.custom_theme,
        },
        ..v
    }
}

/// After custom colours came from the colours window: the custom theme with
/// those colours is in use, and the button to save it is shown
pub open spec fn after_custom_colours<E>(v: SettingsView<E>, colours: AppColoursRaw) -> SettingsView<
    E,
> {
    SettingsView { show_save_colours_button: true, theme: ColourTheme::Custom(colours), ..v }
}

/// After the answer to saving the config with a new database, and whether
/// the app's database is now to be switched to it
pub open spec fn after_config_saved<E>(v: SettingsView<E>, answer: ConfigSaveAnswer<E>) -> (
    SettingsView<E>,
    bool,
) {
    if !v.awaiting_config_save {
        (v, false)
    } else {
        match answer {
            ConfigSaveAnswer::Saved => (
                SettingsView { awaiting_config_save: false, awaiting_pool_switch: true, ..v },
                true,
            ),
            ConfigSaveAnswer::IncompatibleSchema => (
                SettingsView {
                    awaiting_config_save: false,
                    status: SettingsStatus::DatabaseHasDifferentSchema,
                    ..v
                },
                false,
            ),
            ConfigSaveAnswer::Failed(e) => (
                SettingsView {
                    awaiting_config_save: false,
                    status: SettingsStatus::CrudError(e),
                    ..v
                },
                false,
            ),
        }
    }
}

/// After the answer to saving the config with a new theme
pub open spec fn after_theme_saved<E>(v: SettingsView<E>, answer: Result<(), E>) -> SettingsView<E> {
    if !v.awaiting_theme_save {
        v
    } else {
        SettingsView {
            awaiting_theme_save: false,
            show_save_colours_button: false,
            status: match answer {
                Ok(()) => SettingsStatus::SuccessfullyChangedTheme,
                Err(e) => SettingsStatus::CrudError(e),
            },
            ..v
        }
    }
}

/// After the answer to switching the app to the new database, and whether
/// the rest of the app is to reload its data
pub open spec fn after_pool_switched<E>(v: SettingsView<E>, answer: Result<(), E>) -> (
    SettingsView<E>,
    bool,
) {
    if !v.awaiting_pool_switch {
        (v, false)
    } else {
        match answer {
            Ok(()) => (
                SettingsView {
                    awaiting_pool_switch: false,
                    status: SettingsStatus::SuccessfullyChangedDatabase,
                    ..v
                },
                true,
            ),
            Err(e) => (
                SettingsView {
                    awaiting_pool_switch: false,
                    status: SettingsStatus::CrudError(e),
                    ..v
                },
                false,
            ),
        }
    }
}

impl<E> SettingsRequests<E> {
    /// A panel that has done nothing yet, with the theme and the custom
    /// colours of the config
    pub fn new(theme: ColourTheme, custom_theme: AppColoursRaw) -> (r: Self)
        ensures
            r@.status is Ready,
            !r@.awaiting_config_save,
            !r@.awaiting_theme_save,
            !r@.awaiting_pool_switch,
            !r@.show_save_colours_button,
            r@.theme == theme,
            r@.custom_theme == custom_theme,
    {
        SettingsRequests {
            status: SettingsStatus::Ready,
            awaiting_config_save: false,
            awaiting_theme_save: false,
            awaiting_pool_switch: false,
            show_save_colours_button: false,
            theme,
            custom_theme,
        }
    }

    /// The colour theme in use
    pub fn theme(&self) -> (theme: ColourTheme)
        ensures
            theme == self@.theme,
    {
        self.theme
    }

    /// The custom colours kept for the custom theme
    pub fn custom_theme(&self) -> (colours: AppColoursRaw)
        ensures
            colours == self@.custom_theme,
    {
        self.custom_theme
    }

    /// The theme that choosing "Custom" selects: the custom theme in use, or
    /// else the one kept
    pub fn custom_choice(&self) -> (theme: ColourTheme)
        ensures
            theme == (match self@.theme {
                ColourTheme::Custom(colours) => ColourTheme::Custom(colours),
                _ => ColourTheme::Custom(self@.custom_theme),
            }),
    {
        match self.theme {
            ColourTheme::Custom(colours) => ColourTheme::Custom(colours),
            _ => ColourTheme::Custom(self.custom_theme),
        }
    }

    /// Whether the button to edit the custom colours is shown: while the
    /// custom theme is in use
    pub fn shows_edit_custom_colours(&self) -> (shown: bool)
        ensures
            shown == (self@.theme is Custom),
    {
        match self.theme {
            ColourTheme::Custom(_) => true,
            _ => false,
        }
    }

    /// The status shown
    pub fn status(&self) -> (status: &SettingsStatus<E>)
        ensures
            *status == self@.status,
    {
        &self.status
    }

    /// Whether the "Save Custom Theme" button is shown
    pub fn shows_save_colours_button(&self) -> (shown: bool)
        ensures
            shown == self@.show_save_colours_button,
    {
        self.show_save_colours_button
    }

    /// Whether the panel's controls accept input: not while a save is
    /// answered
    pub fn controls_enabled(&self) -> (enabled: bool)
        ensures
            enabled == !(self@.status is WaitingForResponse),
    {
        match self.status {
            SettingsStatus::WaitingForResponse => false,
            _ => true,
        }
    }

    /// Whether the panel waits for an answer
    pub fn waiting_for_updates(&self) -> (waiting: bool)
        ensures
            waiting == (self@.awaiting_config_save || self@.awaiting_pool_switch
                || self@.awaiting_theme_save),
    {
        self.awaiting_config_save || self.awaiting_pool_switch || self.awaiting_theme_save
    }

    /// A database file was chosen (an existing one, a new one, or the
    /// default): the config is being saved
    pub fn database_chosen(&mut self)
        ensures
            final(self)@ == after_database_chosen(old(self)@),
    {
        self.status = SettingsStatus::WaitingForResponse;
        self.awaiting_config_save = true;
    }

    /// The theme `theme` was chosen, or the custom theme in use is to be
    /// saved: returns the theme that the app is now to use, which the caller
    /// puts in the shared config before saving the config
    pub fn theme_chosen(&mut self, theme: ColourTheme) -> (shared: ColourTheme)
        ensures
            final(self)@ == after_theme_chosen(old(self)@, theme),
            shared == theme,
    {
        self.status = SettingsStatus::WaitingForResponse;
        self.awaiting_theme_save = true;
        self.theme = theme;
        match theme {
            ColourTheme::Custom(colours) => {
                self.custom_theme = colours;
            },
            _ => {},
        }
        theme
    }

    /// New custom colours came from the colours window: the custom theme with
    /// those colours is in use and may be saved.  Returns the theme that the
    /// app is now to use, which the caller puts in the shared config.
    pub fn custom_colours_received(&mut self, colours: AppColoursRaw) -> (shared: ColourTheme)
        ensures
            final(self)@ == after_custom_colours(old(self)@, colours),
            shared == ColourTheme::Custom(colours),
    {
        self.theme = ColourTheme::Custom(colours);
        self.show_save_colours_button = true;
        self.theme
    }

    /// Take the answer to saving the config with a new database; returns
    /// whether the app is now to switch to that database
    pub fn receive_config_saved(&mut self, answer: ConfigSaveAnswer<E>) -> (switch_database: bool)
        ensures
            (final(self)@, switch_database) == after_config_saved(old(self)@, answer),
    {
        if !self.awaiting_config_save {
            return false;
        }
        self.awaiting_config_save = false;
        match answer {
            ConfigSaveAnswer::Saved => {
                self.awaiting_pool_switch = true;
                true
            },
            ConfigSaveAnswer::IncompatibleSchema => {
                self.status = SettingsStatus::DatabaseHasDifferentSchema;
                false
            },
            ConfigSaveAnswer::Failed(e) => {
                self.status = SettingsStatus::CrudError(e);
                false
            },
        }
    }

    /// Take the answer to saving the config with a new theme
    pub fn receive_theme_saved(&mut self, answer: Result<(), E>)
        ensures
            final(self)@ == after_theme_saved(old(self)@, answer),
    {
        if !self.awaiting_theme_save {
            return ;
        }
        self.awaiting_theme_save = false;
        self.show_save_colours_button = false;
        self.status = match answer {
            Ok(()) => SettingsStatus::SuccessfullyChangedTheme,
            Err(e) => SettingsStatus::CrudError(e),
        };
    }

    /// Take the answer to switching the app to the new database; returns
    /// whether the rest of the app is to reload its data
    pub fn receive_pool_switched(&mut self, answer: Result<(), E>) -> (reload: bool)
        ensures
            (final(self)@, reload) == after_pool_switched(old(self)@, answer),
    {
        if !self.awaiting_pool_switch {
            return false;
        }
        self.awaiting_pool_switch = false;
        match answer {
            Ok(()) => {
                self.status = SettingsStatus::SuccessfullyChangedDatabase;
                true
            },
            Err(e) => {
                self.status = SettingsStatus::CrudError(e);
                false
            },
        }
    }
}

/// A chosen database is put to use only once the config naming it has been
/// saved: choosing it, saving the config and switching the app over ends in
/// success, asks the rest of the app to reload, and leaves nothing awaited
/// of the database; any other answer to the save switches nothing
pub proof fn law_database_used_only_after_saving<E>(
    v: SettingsView<E>,
    save_answer: ConfigSaveAnswer<E>,
    switch_answer: Result<(), E>,
)
    requires
        !v.awaiting_pool_switch,
    ensures
        ({
            let (saved, switch) = after_config_saved(after_database_chosen(v), save_answer);
            let (switched, reload) = after_pool_switched(saved, switch_answer);
            &&& switch == (save_answer is Saved)
            &&& (!switch ==> !saved.awaiting_pool_switch && !reload && !(
            saved.status is WaitingForResponse))
            &&& (switch ==> saved.awaiting_pool_switch && saved.status is WaitingForResponse)
            &&& (switch && switch_answer is Ok ==> reload && switched.status is SuccessfullyChangedDatabase)
            &&& !switched.awaiting_config_save && !switched.awaiting_pool_switch
        }),
{
}

/// A theme answer ends the wait for it and hides the save button, and the
/// chosen theme stays in use
pub proof fn law_theme_answer_settles<E>(
    v: SettingsView<E>,
    theme: ColourTheme,
    answer: Result<(), E>,
)
    ensures
        ({
            let after = after_theme_saved(after_theme_chosen(v, theme), answer);
            &&& after.theme == theme
            &&& !after.awaiting_theme_save
            &&& !after.show_save_colours_button
            &&& (answer is Ok <==> after.status is SuccessfullyChangedTheme)
        }),
{
}

} // verus!
