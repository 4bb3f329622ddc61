//! The login form, and the check of what was typed against the
//! credentials on record.
//!
//! The record is looked up outside the library; the form is handed what
//! the lookup found as a [`Lookup`].

use vstd::prelude::*;
use vstd::string::*;
use crate::user::{UserEntry, UserEntryModel};

verus! {

/// Whether the form accepts input.
#[derive(Clone, Copy, Debug, PartialEq, Eq, Structural)]
pub enum LoginState {
    /// The user is still typing.
    AwaitingUser,
    /// The credentials were submitted.
    AwaitingServer,
}

impl Default for LoginState {
    fn default() -> (state: LoginState)
        ensures
            state == LoginState::AwaitingUser,
    {
        LoginState::AwaitingUser
    }
}

/// The events of the login form.
#[derive(Clone, Debug, PartialEq, Eq)]
pub enum LoginMessage {
    UsernameFieldChanged(String),
    PasswordFieldChanged(String),
    LoginButtonPressed,
}

/// The model of a [`LoginMessage`].
pub enum LoginMessageModel {
    UsernameFieldChanged(Seq<char>),
    PasswordFieldChanged(Seq<char>),
    LoginButtonPressed,
}

impl DeepView for LoginMessage {
    type V = LoginMessageModel;

    open spec fn deep_view(&self) -> LoginMessageModel {
        match self {
            LoginMessage::UsernameFieldChanged(t) => LoginMessageModel::UsernameFieldChanged(t@),
            LoginMessage::PasswordFieldChanged(t) => LoginMessageModel::PasswordFieldChanged(t@),
            LoginMessage::LoginButtonPressed => LoginMessageModel::LoginButtonPressed,
        }
    }
}

/// What the lookup of a user's record found.
#[derive(Clone, Debug, PartialEq, Eq)]
pub enum Lookup {
    /// There is no record of the user.
    NotFound,
    /// The record could not be read.
    Unreadable,
    /// The record was read and is not a valid record; with the reason.
    Invalid(String),
    /// The record: the digest of the password, and its salt.
    Found { md5: String, salt: String },
}

/// The model of a [`Lookup`].
pub enum LookupModel {
    NotFound,
    Unreadable,
    Invalid(Seq<char>),
    Found { md5: Seq<char>, salt: Seq<char> },
}

impl DeepView for Lookup {
    type V = LookupModel;

    open spec fn deep_view(&self) -> LookupModel {
        match self {
            Lookup::NotFound => LookupModel::NotFound,
            Lookup::Unreadable => LookupModel::Unreadable,
            Lookup::Invalid(reason) => LookupModel::Invalid(reason@),
            Lookup::Found { md5, salt } => LookupModel::Found { md5: md5@, salt: salt@ },
        }
    }
}

/// The login form: what was typed, the last failure, and the credentials
/// once a login succeeded.
#[derive(Clone, Debug, PartialEq, Eq)]
pub struct Login {
    pub state: LoginState,
    pub entry: UserEntry,
    pub password: String,
    pub issue: String,
    pub found_entry: Option<UserEntry>,
}

/// The model of a [`Login`].
pub struct LoginModel {
    pub state: LoginState,
    pub entry: UserEntryModel,
    pub password: Seq<char>,
    pub issue: Seq<char>,
    pub found_entry: Option<UserEntryModel>,
}

impl DeepView for Login {
    type V = LoginModel;

    open spec fn deep_view(&self) -> LoginModel {
        LoginModel {
            state: self.state,
            entry: self.entry.deep_view(),
            password: self.password@,
            issue: self.issue@,
            found_entry: self.found_entry.deep_view(),
        }
    }
}

/// The model of the outcome of an attempt.
pub open spec fn attempt_view(outcome: Result<UserEntry, String>) -> Result<
    UserEntryModel,
    Seq<char>,
> {
    match outcome {
        Ok(entry) => Ok(entry.deep_view()),
        Err(issue) => Err(issue@),
    }
}

/// The record of `username` as the lookup found it, or why there is none.
pub open spec fn record_of(username: Seq<char>, lookup: LookupModel) -> Result<
    UserEntryModel,
    Seq<char>,
> {
    match lookup {
        LookupModel::Found { md5, salt } => Ok(
            UserEntryModel { username: username, md5: md5, salt: salt },
        ),
        LookupModel::Invalid(reason) => Err(
            "User '"@ + username + "' contains invalid data!\n"@ + reason,
        ),
        LookupModel::Unreadable => Err("Failed to read '"@ + username + ".toml'."@),
        LookupModel::NotFound => Err("User '"@ + username + "' does not exist."@),
    }
}

/// An attempt to log in with what the form holds: the form afterwards,
/// and the credentials or why the attempt failed. Where a record is found
/// the digest of the typed password is computed under the record's salt
/// and kept in the form; the attempt succeeds where it is the digest on
/// record.
pub open spec fn attempt(form: LoginModel, lookup: LookupModel) -> (
    LoginModel,
    Result<UserEntryModel, Seq<char>>,
) {
    match record_of(form.entry.username, lookup) {
        Err(issue) => (form, Err(issue)),
        Ok(record) => {
            let entry = form.entry.calculated(form.password, record.salt);
            let form = LoginModel { entry: entry, ..form };
            if record.matches(entry) {
                (form, Ok(entry))
            } else {
                (form, Err("Passwords do not match!"@))
            }
        },
    }
}

/// One transition of the login form, where a lookup of the typed name
/// would find `lookup`.
pub open spec fn step(form: LoginModel, message: LoginMessageModel, lookup: LookupModel) -> LoginModel {
    match message {
        LoginMessageModel::UsernameFieldChanged(username) => LoginModel {
            entry: UserEntryModel { username: username, ..form.entry },
            ..form
        },
        LoginMessageModel::PasswordFieldChanged(password) => LoginModel {
            password: password,
            ..form
        },
        LoginMessageModel::LoginButtonPressed => {
            let (form, outcome) = attempt(form, lookup);
            match outcome {
                Ok(entry) => LoginModel {
                    issue: Seq::empty(),
                    state: LoginState::AwaitingServer,
                    found_entry: Some(entry),
                    ..form
                },
                Err(issue) => LoginModel {
                    issue: issue,
                    state: LoginState::AwaitingUser,
                    ..form
                },
            }
        },
    }
}

/// A login succeeds exactly where a record is found whose digest is the
/// digest of the typed password under the record's salt, and it then
/// yields the typed name with that digest and salt.
pub proof fn lemma_attempt_succeeds_iff_digest_matches(form: LoginModel, lookup: LookupModel)
    ensures
        attempt(form, lookup).1 is Ok <==> (lookup matches LookupModel::Found { md5, salt }
            && md5 == crate::user::salted_digest(form.password, salt)),
        attempt(form, lookup).1 matches Ok(entry) ==> (lookup matches LookupModel::Found {
            md5,
            salt,
        } && entry == (UserEntryModel { username: form.entry.username, md5: md5, salt: salt })),
{
}

impl Default for Login {
    /// The empty form, awaiting the user.
    fn default() -> (form: Login)
        ensures
            form.deep_view() == (LoginModel {
                state: LoginState::AwaitingUser,
                entry: UserEntryModel {
                    username: Seq::empty(),
                    md5: Seq::empty(),
                    salt: Seq::empty(),
                },
                password: Seq::empty(),
                issue: Seq::empty(),
                found_entry: None,
            }),
    {
        Login {
            state: LoginState::AwaitingUser,
            entry: UserEntry::default(),
            password: String::new(),
            issue: String::new(),
            found_entry: None,
        }
    }
}

impl Login {
    /// Takes `username` as the typed name.
    pub fn set_username(&mut self, username: String)
        ensures
            final(self).deep_view() == (LoginModel {
                entry: UserEntryModel { username: username@, ..old(self).deep_view().entry },
                ..old(self).deep_view()
            }),
    {
        self.entry.username = username;
    }

    /// Takes `password` as the typed password.
    pub fn set_password(&mut self, password: String)
        ensures
            final(self).deep_view() == (LoginModel { password: password@, ..old(self).deep_view() }),
    {
        self.password = password;
    }

    /// The record of `username` as `lookup` found it, or why there is
    /// none.
    pub fn fetch_username_from_database(username: &str, lookup: Lookup) -> (record: Result<
        UserEntry,
        String,
    >)
        ensures
            attempt_view(record) == record_of(username@, lookup.deep_view()),
    {
        match lookup {
            Lookup::Found { md5, salt } => Ok(
                UserEntry { username: String::from_str(username), md5, salt },
            ),
            Lookup::Invalid(reason) => Err(
                String::from_str("User '").concat(username).concat(
                    "' contains invalid data!\n",
                ).concat(reason.as_str()),
            ),
            Lookup::Unreadable => Err(
                String::from_str("Failed to read '").concat(username).concat(".toml'."),
            ),
            Lookup::NotFound => Err(
                String::from_str("User '").concat(username).concat("' does not exist."),
            ),
        }
    }

    /// Attempts to log in with what the form holds, where a lookup of the
    /// typed name found `lookup`.
    pub fn find_match_and_login(&mut self, lookup: Lookup) -> (outcome: Result<UserEntry, String>)
        ensures
            (final(self).deep_view(), attempt_view(outcome)) == attempt(
                old(self).deep_view(),
                lookup.deep_view(),
            ),
    {
        let found_entry = match Login::fetch_username_from_database(
            self.entry.username.as_str(),
            lookup,
        ) {
            Ok(entry) => entry,
            Err(err) => return Err(err),
        };
        self.entry.calculate(self.password.clone(), found_entry.salt.clone());
        if found_entry.is_equal(&self.entry) {
            Ok(self.entry.clone())
        } else {
            Err(String::from_str("Passwords do not match!"))
        }
    }

    /// Takes one transition. `lookup` is what a lookup of the typed name
    /// found; it is read only when the login button was pressed.
    pub fn update(&mut self, message: LoginMessage, lookup: Lookup)
        ensures
            final(self).deep_view() == step(
                old(self).deep_view(),
                message.deep_view(),
                lookup.deep_view(),
            ),
    {
        match message {
            LoginMessage::UsernameFieldChanged(username) => self.set_username(username),
            LoginMessage::PasswordFieldChanged(password) => self.set_password(password),
            LoginMessage::LoginButtonPressed => {
                self.issue = String::new();
                self.state = LoginState::AwaitingServer;
                match self.find_match_and_login(lookup) {
                    Ok(found_entry) => {
                        self.found_entry = Some(found_entry);
                    },
                    Err(err) => {
                        self.issue = err;
                        self.state = LoginState::AwaitingUser;
                    },
                }
            },
        }
    }
}

} // verus!
