//! The login / create-account form: the tab state machine and the
//! client-side validation that runs before anything reaches the network.

use vstd::prelude::*;

verus! {

/// The error message box of the view layer; it renders the text it is
/// handed and keeps no state of its own.
#[derive(Clone, Copy, Debug, Eq, PartialEq, Structural)]
pub struct ErrorMessage;

/// The tabs for logging in or creating a new account.
#[derive(Clone, Copy, Debug, PartialEq, Eq, Structural)]
pub enum LoginOrCreateAccountTab {
    /// Login.
    Login,

    /// Create a new account.
    CreateAccount,
}

/// A message for the form to react to.
#[derive(Debug, PartialEq)]
pub enum LoginOrCreateAccountMsg {
    /// Change to the specified tab.
    ChangeTab(LoginOrCreateAccountTab),

    /// Change (or clear) the current error message.
    ChangeError(Option<String>),

    /// Submit a login or create-account request with the given username,
    /// password and "remember me" flag.
    Submit(LoginOrCreateAccountTab, (String, String, bool)),
}

/// What a submission click becomes: blank credentials short-circuit into an
/// error message before any network call; anything else becomes a submission.
pub fn onsubmit_message(
    tab: LoginOrCreateAccountTab,
    username: String,
    password: String,
    remember_me: bool,
) -> (r: LoginOrCreateAccountMsg)
    ensures
        username@.len() == 0 || password@.len() == 0 ==> (r matches
            LoginOrCreateAccountMsg::ChangeError(Some(m)) && m@
            == "Please enter a username and password"@),
        username@.len() > 0 && password@.len() > 0 ==> r == LoginOrCreateAccountMsg::Submit(
            tab,
            (username, password, remember_me),
        ),
{
    if username.as_str().is_empty() || password.as_str().is_empty() {
        LoginOrCreateAccountMsg::ChangeError(
            Some("Please enter a username and password".to_owned()),
        )
    } else {
        LoginOrCreateAccountMsg::Submit(tab, (username, password, remember_me))
    }
}

/// The form: which tab is selected, and a possible error to show.
#[derive(Clone, Debug, PartialEq)]
pub struct LoginOrCreateAccountForm {
    /// Which tab is currently selected.
    pub tab: LoginOrCreateAccountTab,

    /// A possible error to show.
    pub error: Option<String>,
}

impl LoginOrCreateAccountForm {
    /// A fresh form on the login tab, already showing the invalid-credentials
    /// message when the last attempt failed that way.
    pub fn create(invalid_username_or_password: bool) -> (r: Self)
        ensures
            r.tab == LoginOrCreateAccountTab::Login,
            invalid_username_or_password ==> (r.error matches Some(m) && m@
                == "Invalid username or password"@),
            !invalid_username_or_password ==> r.error is None,
    {
        LoginOrCreateAccountForm {
            tab: LoginOrCreateAccountTab::Login,
            error: if invalid_username_or_password {
                Some("Invalid username or password".to_owned())
            } else {
                None
            },
        }
    }

    /// React to one message. The first component says whether the view
    /// changed; the second carries a submission for the caller to send.
    pub fn update(&mut self, msg: LoginOrCreateAccountMsg) -> (r: (
        bool,
        Option<(LoginOrCreateAccountTab, (String, String, bool))>,
    ))
        ensures
            r.0,
            match msg {
                LoginOrCreateAccountMsg::ChangeTab(tab) => {
                    &&& final(self).tab == tab
                    &&& final(self).error is None
                    &&& r.1 is None
                },
                LoginOrCreateAccountMsg::ChangeError(e) => {
                    &&& final(self).tab == old(self).tab
                    &&& final(self).error == e
                    &&& r.1 is None
                },
                LoginOrCreateAccountMsg::Submit(tab, params) => {
                    &&& *final(self) == *old(self)
                    &&& r.1 == Some((tab, params))
                },
            },
    {
        match msg {
            LoginOrCreateAccountMsg::ChangeTab(tab) => {
                self.tab = tab;
                self.error = None;
                (true, None)
            },
            LoginOrCreateAccountMsg::ChangeError(e) => {
                self.error = e;
                (true, None)
            },
            LoginOrCreateAccountMsg::Submit(tab, params) => (true, Some((tab, params))),
        }
    }

    /// React to new properties: a failed attempt surfaces the
    /// invalid-credentials message.
    pub fn changed(&mut self, invalid_username_or_password: bool) -> (r: bool)
        ensures
            invalid_username_or_password ==> ({
                &&& r
                &&& final(self).tab == old(self).tab
                &&& final(self).error matches Some(m) && m@ == "Invalid username or password"@
            }),
            !invalid_username_or_password ==> !r && *final(self) == *old(self),
    {
        if invalid_username_or_password {
            self.error = Some("Invalid username or password".to_owned());
            true
        } else {
            false
        }
    }
}

} // verus!
