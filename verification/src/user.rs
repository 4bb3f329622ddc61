//! A user: the credentials by which one logs in, the profile, and the
//! settings of the interface.

use vstd::prelude::*;
use vstd::string::*;
use vstd::utf8::encode_utf8;

verus! {

/// The MD5 digest of `data`, written as 32 lower-case hexadecimal digits.
pub uninterp spec fn md5_hex(data: Seq<u8>) -> Seq<char>;

/// `md5::compute`, and the `LowerHex` form of the `md5::Digest` it
/// returns: the digest of `data` as lower-case hexadecimal text. The
/// digest is a function of the data alone.
#[verifier::external_body]
fn digest_hex(data: &[u8]) -> (hex: String)
    ensures
        hex@ == md5_hex(data@),
{
    format!("{:x}", md5::compute(data))
}

/// The credentials of a user: the name, and the salted digest of the
/// password with its salt.
#[derive(Debug, PartialEq, Eq)]
pub struct UserEntry {
    pub username: String,
    pub md5: String,
    pub salt: String,
}

/// The model of a [`UserEntry`].
pub struct UserEntryModel {
    pub username: Seq<char>,
    pub md5: Seq<char>,
    pub salt: Seq<char>,
}

impl DeepView for UserEntry {
    type V = UserEntryModel;

    open spec fn deep_view(&self) -> UserEntryModel {
        UserEntryModel { username: self.username@, md5: self.md5@, salt: self.salt@ }
    }
}

impl Clone for UserEntry {
    fn clone(&self) -> (copy: UserEntry)
        ensures
            copy == *self,
    {
        UserEntry {
            username: self.username.clone(),
            md5: self.md5.clone(),
            salt: self.salt.clone(),
        }
    }
}

impl Default for UserEntry {
    /// The credentials with every field empty.
    fn default() -> (entry: UserEntry)
        ensures
            entry.deep_view() == (UserEntryModel {
                username: Seq::empty(),
                md5: Seq::empty(),
                salt: Seq::empty(),
            }),
    {
        UserEntry { username: String::new(), md5: String::new(), salt: String::new() }
    }
}

/// The digest stored for `password` under `salt`: the MD5 digest of the
/// password followed by the salt, in hexadecimal.
pub open spec fn salted_digest(password: Seq<char>, salt: Seq<char>) -> Seq<char> {
    md5_hex(encode_utf8(password + salt))
}

impl UserEntryModel {
    /// Whether two entries stand for the same user with the same
    /// password: the names agree and the digests agree. The salts are not
    /// compared.
    pub open spec fn matches(self, other: UserEntryModel) -> bool {
        self.username == other.username && self.md5 == other.md5
    }

    /// The entry with its digest computed anew from `password` and `salt`.
    pub open spec fn calculated(self, password: Seq<char>, salt: Seq<char>) -> UserEntryModel {
        UserEntryModel { md5: salted_digest(password, salt), salt: salt, ..self }
    }
}

impl UserEntry {
    /// Whether two entries stand for the same user with the same password.
    pub fn is_equal(&self, other: &Self) -> (equal: bool)
        ensures
            equal == self.deep_view().matches(other.deep_view()),
    {
        self.username == other.username && self.md5 == other.md5
    }

    /// Takes `salt` as the salt and computes the digest of `password`
    /// under it.
    pub fn calculate(&mut self, password: String, salt: String)
        ensures
            final(self).deep_view() == old(self).deep_view().calculated(password@, salt@),
    {
        let salted = password.concat(salt.as_str());
        self.md5 = digest_hex(salted.as_str().as_bytes());
        self.salt = salt;
    }
}

/// What a user may do.
#[derive(Clone, Copy, Debug, PartialEq, Eq, Structural)]
pub enum UserPrivilege {
    Basic,
    Admin,
}

impl UserPrivilege {
    /// The name of the privilege.
    pub open spec fn text_spec(self) -> Seq<char> {
        match self {
            UserPrivilege::Admin => "Admin"@,
            UserPrivilege::Basic => "Basic"@,
        }
    }

    /// Writes the name of the privilege.
    pub fn to_text(&self) -> (text: String)
        ensures
            text@ == self.text_spec(),
    {
        match self {
            UserPrivilege::Admin => String::from_str("Admin"),
            UserPrivilege::Basic => String::from_str("Basic"),
        }
    }
}

impl Default for UserPrivilege {
    fn default() -> (privilege: UserPrivilege)
        ensures
            privilege == UserPrivilege::Admin,
    {
        UserPrivilege::Admin
    }
}

/// The profile of a user. `user_image` is the path of the user's picture.
#[derive(Clone, Debug, PartialEq, Eq)]
pub struct UserData {
    pub username: String,
    pub privilege: UserPrivilege,
    pub name: String,
    pub surname: String,
    pub user_image: Option<String>,
}

/// The model of a [`UserData`].
pub struct UserDataModel {
    pub username: Seq<char>,
    pub privilege: UserPrivilege,
    pub name: Seq<char>,
    pub surname: Seq<char>,
    pub user_image: Option<Seq<char>>,
}

impl DeepView for UserData {
    type V = UserDataModel;

    open spec fn deep_view(&self) -> UserDataModel {
        UserDataModel {
            username: self.username@,
            privilege: self.privilege,
            name: self.name@,
            surname: self.surname@,
            user_image: self.user_image.deep_view(),
        }
    }
}

impl Default for UserData {
    /// The profile shown while none has been loaded.
    fn default() -> (data: UserData)
        ensures
            data.deep_view() == (UserDataModel {
                username: "josko"@,
                privilege: UserPrivilege::Admin,
                name: "Joško"@,
                surname: "Križanović"@,
                user_image: Some("image.qoi"@),
            }),
    {
        UserData {
            username: String::from_str("josko"),
            privilege: UserPrivilege::Admin,
            name: String::from_str("Joško"),
            surname: String::from_str("Križanović"),
            user_image: Some(String::from_str("image.qoi")),
        }
    }
}

/// The colours of the interface.
#[derive(Clone, Copy, Debug, PartialEq, Eq, Structural)]
pub enum SettingTheme {
    Light,
    Dark,
}

impl Default for SettingTheme {
    fn default() -> (theme: SettingTheme)
        ensures
            theme == SettingTheme::Light,
    {
        SettingTheme::Light
    }
}

/// Where the tab bar stands.
#[derive(Clone, Copy, Debug, PartialEq, Eq, Structural)]
pub enum SettingTabPosition {
    Top,
    Bottom,
}

impl Default for SettingTabPosition {
    fn default() -> (position: SettingTabPosition)
        ensures
            position == SettingTabPosition::Top,
    {
        SettingTabPosition::Top
    }
}

/// The settings of the interface.
#[derive(Clone, Copy, Debug, PartialEq, Eq, Structural)]
pub struct Settings {
    pub theme: SettingTheme,
    pub tab_bar_position: SettingTabPosition,
}

impl Default for Settings {
    fn default() -> (settings: Settings)
        ensures
            settings == (Settings {
                theme: SettingTheme::Light,
                tab_bar_position: SettingTabPosition::Top,
            }),
    {
        Settings { theme: SettingTheme::Light, tab_bar_position: SettingTabPosition::Top }
    }
}

} // verus!
