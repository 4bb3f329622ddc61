//! The settings tab: the profile of the user who logged in and the
//! settings of the interface, as they are put together from the user's
//! two files.
//!
//! The files are read outside the library; what became of each read is
//! handed in as a [`FileOutcome`].

use vstd::prelude::*;
use vstd::string::*;
use crate::error::{Error, ErrorModel, Position};
use crate::user::{SettingTabPosition, SettingTheme, UserData, UserDataModel, UserEntry};

verus! {

/// The events of the settings tab.
#[derive(Clone, Copy, Debug, PartialEq, Eq, Structural)]
pub enum SettingsMessage {
    ThemeChanged(SettingTheme),
    TabPositionChanged(SettingTabPosition),
}

/// What became of reading and parsing a file.
#[derive(Clone, Debug, PartialEq, Eq)]
pub enum FileOutcome<T> {
    /// There is no such file.
    Missing,
    /// The file could not be read; with the reason.
    Unreadable(String),
    /// The file was read and could not be parsed; with the reason.
    Invalid(String),
    /// The file was read and parsed.
    Loaded(T),
}

/// The model of a [`FileOutcome`].
pub enum FileOutcomeModel<T> {
    Missing,
    Unreadable(Seq<char>),
    Invalid(Seq<char>),
    Loaded(T),
}

impl DeepView for crate::user::Settings {
    type V = crate::user::Settings;

    open spec fn deep_view(&self) -> crate::user::Settings {
        *self
    }
}

impl<T: DeepView> DeepView for FileOutcome<T> {
    type V = FileOutcomeModel<T::V>;

    open spec fn deep_view(&self) -> FileOutcomeModel<T::V> {
        match self {
            FileOutcome::Missing => FileOutcomeModel::Missing,
            FileOutcome::Unreadable(reason) => FileOutcomeModel::Unreadable(reason@),
            FileOutcome::Invalid(reason) => FileOutcomeModel::Invalid(reason@),
            FileOutcome::Loaded(value) => FileOutcomeModel::Loaded(value.deep_view()),
        }
    }
}

/// The state of the settings tab.
#[derive(Clone, Debug, PartialEq, Eq)]
pub struct Settings {
    pub user_data: UserData,
    pub user_settings: crate::user::Settings,
}

/// The model of a [`Settings`].
pub struct SettingsModel {
    pub user_data: UserDataModel,
    pub user_settings: crate::user::Settings,
}

impl DeepView for Settings {
    type V = SettingsModel;

    open spec fn deep_view(&self) -> SettingsModel {
        SettingsModel { user_data: self.user_data.deep_view(), user_settings: self.user_settings }
    }
}

impl SettingsModel {
    /// The settings after `message`.
    pub open spec fn changed(self, message: SettingsMessage) -> SettingsModel {
        match message {
            SettingsMessage::ThemeChanged(theme) => SettingsModel {
                user_settings: crate::user::Settings { theme: theme, ..self.user_settings },
                ..self
            },
            SettingsMessage::TabPositionChanged(position) => SettingsModel {
                user_settings: crate::user::Settings {
                    tab_bar_position: position,
                    ..self.user_settings
                },
                ..self
            },
        }
    }
}

/// The message that passes on what the function `function` reported.
pub open spec fn function_message(function: Seq<char>, reported: Seq<char>) -> Seq<char> {
    function + " returned the following message: "@ + reported
}

/// The model of the outcome of putting the settings together.
pub open spec fn loaded_view(outcome: Result<Settings, Error>) -> Result<SettingsModel, ErrorModel> {
    match outcome {
        Ok(settings) => Ok(settings.deep_view()),
        Err(error) => Err(error.deep_view()),
    }
}

/// The error named `name` with the message `message`, arisen at `place`.
pub open spec fn error_at(place: (Seq<char>, Position), name: Seq<char>, message: Seq<char>) -> ErrorModel {
    ErrorModel { place: seq![place], name: name, message: message }
}

/// The settings of the user `username`, put together from what became of
/// the profile file and of the settings file. The profile is required.
/// The settings file may be missing, and the settings are then the
/// defaults; a settings file that is there must be readable and valid.
/// Failures of the profile file come first. The profile takes the name
/// that the user logged in with.
pub open spec fn assemble(
    username: Seq<char>,
    user_file: FileOutcomeModel<UserDataModel>,
    settings_file: FileOutcomeModel<crate::user::Settings>,
    place: (Seq<char>, Position),
) -> Result<SettingsModel, ErrorModel> {
    match user_file {
        FileOutcomeModel::Missing => Err(
            error_at(
                place,
                "Cannot find `user.toml`"@,
                "No `user.toml` was found for username `"@ + username + "`"@,
            ),
        ),
        FileOutcomeModel::Unreadable(reason) => Err(
            error_at(
                place,
                "Failed to read `user.toml`"@,
                function_message("std::fs::read_to_string"@, reason),
            ),
        ),
        FileOutcomeModel::Invalid(reason) => Err(
            error_at(
                place,
                "Failed to parse `user.toml`"@,
                function_message("toml::from_str"@, reason),
            ),
        ),
        FileOutcomeModel::Loaded(user_data) => match settings_file {
            FileOutcomeModel::Unreadable(reason) => Err(
                error_at(
                    place,
                    "Failed to read `user.toml`"@,
                    function_message("std::fs::read_to_string"@, reason),
                ),
            ),
            FileOutcomeModel::Invalid(reason) => Err(
                error_at(
                    place,
                    "Failed to parse `user.toml`"@,
                    function_message("toml::from_str"@, reason),
                ),
            ),
            FileOutcomeModel::Missing => Ok(
                SettingsModel {
                    user_data: UserDataModel { username: username, ..user_data },
                    user_settings: crate::user::Settings {
                        theme: SettingTheme::Light,
                        tab_bar_position: SettingTabPosition::Top,
                    },
                },
            ),
            FileOutcomeModel::Loaded(user_settings) => Ok(
                SettingsModel {
                    user_data: UserDataModel { username: username, ..user_data },
                    user_settings: user_settings,
                },
            ),
        },
    }
}

/// Builds the error named `name` with the message `message`, arisen in
/// `func` at `position`.
fn error(func: &'static str, position: Position, name: &str, message: String) -> (error: Error)
    ensures
        error.deep_view() == error_at((func@, position), name@, message@),
{
    let mut place: Vec<(&'static str, Position)> = Vec::new();
    place.push((func, position));
    let error = Error { place, name: String::from_str(name), message };
    assert(error.deep_view().place =~= seq![(func@, position)]);
    error
}

/// Builds the message that passes on what the function `function`
/// reported.
fn function_message_text(function: &str, reported: &str) -> (message: String)
    ensures
        message@ == function_message(function@, reported@),
{
    String::from_str(function).concat(" returned the following message: ").concat(reported)
}

impl Default for Settings {
    /// The settings shown before a user's files were loaded.
    fn default() -> (settings: Settings)
        ensures
            settings.user_settings == (crate::user::Settings {
                theme: SettingTheme::Light,
                tab_bar_position: SettingTabPosition::Top,
            }),
            settings.user_data.deep_view() == (UserDataModel {
                username: "josko"@,
                privilege: crate::user::UserPrivilege::Admin,
                name: "Joško"@,
                surname: "Križanović"@,
                user_image: Some("image.qoi"@),
            }),
    {
        Settings { user_data: UserData::default(), user_settings: crate::user::Settings::default() }
    }
}

impl Settings {
    /// Puts the settings of the user `user_entry` together from what
    /// became of the profile file and of the settings file. An error is
    /// recorded as arisen in `func` at `position`.
    pub fn from_database(
        user_entry: &UserEntry,
        user_file: FileOutcome<UserData>,
        settings_file: FileOutcome<crate::user::Settings>,
        func: &'static str,
        position: Position,
    ) -> (outcome: Result<Settings, Error>)
        ensures
            loaded_view(outcome) == assemble(
                user_entry.username@,
                user_file.deep_view(),
                settings_file.deep_view(),
                (func@, position),
            ),
    {
        let mut user_data_contents = match user_file {
            FileOutcome::Missing => {
                return Err(
                    error(
                        func,
                        position,
                        "Cannot find `user.toml`",
                        String::from_str("No `user.toml` was found for username `").concat(
                            user_entry.username.as_str(),
                        ).concat("`"),
                    ),
                );
            },
            FileOutcome::Unreadable(reason) => {
                return Err(
                    error(
                        func,
                        position,
                        "Failed to read `user.toml`",
                        function_message_text("std::fs::read_to_string", reason.as_str()),
                    ),
                );
            },
            FileOutcome::Invalid(reason) => {
                return Err(
                    error(
                        func,
                        position,
                        "Failed to parse `user.toml`",
                        function_message_text("toml::from_str", reason.as_str()),
                    ),
                );
            },
            FileOutcome::Loaded(contents) => contents,
        };
        let user_settings_contents = match settings_file {
            FileOutcome::Missing => crate::user::Settings::default(),
            FileOutcome::Unreadable(reason) => {
                return Err(
                    error(
                        func,
                        position,
                        "Failed to read `user.toml`",
                        function_message_text("std::fs::read_to_string", reason.as_str()),
                    ),
                );
            },
            FileOutcome::Invalid(reason) => {
                return Err(
                    error(
                        func,
                        position,
                        "Failed to parse `user.toml`",
                        function_message_text("toml::from_str", reason.as_str()),
                    ),
                );
            },
            FileOutcome::Loaded(contents) => contents,
        };
        user_data_contents.username = user_entry.username.clone();
        Ok(Settings { user_data: user_data_contents, user_settings: user_settings_contents })
    }

    /// Applies a change of the settings.
    pub fn change(&mut self, message: SettingsMessage)
        ensures
            final(self).deep_view() == old(self).deep_view().changed(message),
    {
        match message {
            SettingsMessage::ThemeChanged(theme) => {
                self.user_settings.theme = theme;
            },
            SettingsMessage::TabPositionChanged(tab_bar_position) => {
                self.user_settings.tab_bar_position = tab_bar_position;
            },
        }
    }

    /// The title of the tab: the word `Settings` and the user's full name.
    pub fn title(&self) -> (title: String)
        ensures
            title@ == "Settings: "@ + self.user_data.name@ + " "@ + self.user_data.surname@,
    {
        String::from_str("Settings: ").concat(self.user_data.name.as_str()).concat(" ").concat(
            self.user_data.surname.as_str(),
        )
    }
}

} // verus!
