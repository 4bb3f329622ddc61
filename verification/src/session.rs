//! A session at the window: the login form first, and the interface once
//! a login succeeded.

use vstd::prelude::*;
use crate::login::{Login, LoginMessage, LoginMessageModel, LoginModel, Lookup, LookupModel};
use crate::ui::{UIModel, UITabID, UI};
use crate::user::UserEntry;

verus! {

/// What the window shows.
#[derive(Clone, Copy, Debug, PartialEq, Eq, Structural)]
pub enum Page {
    Login,
    UI,
}

impl Default for Page {
    fn default() -> (page: Page)
        ensures
            page == Page::Login,
    {
        Page::Login
    }
}

/// The state of a session: the page that is shown, the login form and
/// the interface.
#[derive(Clone, Debug, PartialEq, Eq)]
pub struct Session {
    pub page: Page,
    pub login: Login,
    pub ui: UI,
}

/// The model of a [`Session`].
pub struct SessionModel {
    pub page: Page,
    pub login: LoginModel,
    pub ui: UIModel,
}

impl DeepView for Session {
    type V = SessionModel;

    open spec fn deep_view(&self) -> SessionModel {
        SessionModel { page: self.page, login: self.login.deep_view(), ui: self.ui.deep_view() }
    }
}

impl SessionModel {
    /// The session after an event of the login form, where a lookup of
    /// the typed name would find `lookup`: the form takes its transition,
    /// and the interface is shown as soon as the form holds the
    /// credentials of a login that succeeded.
    pub open spec fn after_login(self, message: LoginMessageModel, lookup: LookupModel) -> SessionModel {
        let login = crate::login::step(self.login, message, lookup);
        SessionModel {
            login: login,
            page: if login.found_entry is Some {
                Page::UI
            } else {
                self.page
            },
            ..self
        }
    }

    /// Whether the polling timer runs: only while the interface is shown
    /// and the order list is open.
    pub open spec fn polls_orders(self) -> bool {
        self.page == Page::UI && self.ui.active_tab == UITabID::Orders
    }
}

/// The login form is left only by a login that succeeded: while the form
/// holds no credentials, an event of the form leaves the page as it was.
pub proof fn lemma_interface_needs_login(
    session: SessionModel,
    message: LoginMessageModel,
    lookup: LookupModel,
)
    requires
        session.page == Page::Login,
        session.login.found_entry is None,
    ensures
        session.after_login(message, lookup).page == Page::UI <==> (message is LoginButtonPressed
            && crate::login::attempt(session.login, lookup).1 is Ok),
{
}

impl Session {
    /// Takes an event of the login form, where a lookup of the typed name
    /// found `lookup`. Returns the credentials of the user whose settings
    /// are to be loaded, once a login succeeded.
    pub fn login(&mut self, message: LoginMessage, lookup: Lookup) -> (user: Option<UserEntry>)
        ensures
            final(self).deep_view() == old(self).deep_view().after_login(
                message.deep_view(),
                lookup.deep_view(),
            ),
            user.deep_view() == final(self).deep_view().login.found_entry,
    {
        self.login.update(message, lookup);
        match &self.login.found_entry {
            Some(user_entry) => {
                self.page = Page::UI;
                Some(user_entry.clone())
            },
            None => None,
        }
    }

    /// Whether the polling timer runs.
    pub fn polls_orders(&self) -> (polls: bool)
        ensures
            polls == self.deep_view().polls_orders(),
    {
        self.page == Page::UI && self.ui.polls_orders()
    }
}

} // verus!
