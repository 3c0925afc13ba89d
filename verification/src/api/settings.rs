//! How to reach the chat server and how to authenticate against it.

use vstd::prelude::*;

use crate::errors::Error;

verus! {

/// Credentials for the login flow: every call first logs in with them.
#[derive(Debug)]
pub struct LoginSettings {
    pub username: String,
    pub password: String,
    /// Base URL of the server, without a trailing slash.
    pub domain: String,
}

/// A token the server issued earlier: calls use it as it is.
#[derive(Debug)]
pub struct AuthSettings {
    pub auth_token: String,
    pub user_id: String,
    /// Base URL of the server, without a trailing slash.
    pub domain: String,
}

/// The configuration a client is built from. It is never changed by a call.
#[derive(Debug)]
pub enum Settings {
    /// Nothing is configured; every call fails with `MissingSettings`.
    Unset,
    Login(LoginSettings),
    Auth(AuthSettings),
}

pub struct LoginSettingsView {
    pub username: Seq<char>,
    pub password: Seq<char>,
    pub domain: Seq<char>,
}

pub struct AuthSettingsView {
    pub auth_token: Seq<char>,
    pub user_id: Seq<char>,
    pub domain: Seq<char>,
}

pub enum SettingsView {
    Unset,
    Login(LoginSettingsView),
    Auth(AuthSettingsView),
}

impl View for LoginSettings {
    type V = LoginSettingsView;

    open spec fn view(&self) -> LoginSettingsView {
        LoginSettingsView {
            username: self.username@,
            password: self.password@,
            domain: self.domain@,
        }
    }
}

impl View for AuthSettings {
    type V = AuthSettingsView;

    open spec fn view(&self) -> AuthSettingsView {
        AuthSettingsView {
            auth_token: self.auth_token@,
            user_id: self.user_id@,
            domain: self.domain@,
        }
    }
}

impl View for Settings {
    type V = SettingsView;

    open spec fn view(&self) -> SettingsView {
        match self {
            Settings::Unset => SettingsView::Unset,
            Settings::Login(login) => SettingsView::Login(login@),
            Settings::Auth(auth) => SettingsView::Auth(auth@),
        }
    }
}

impl SettingsView {
    /// The base URL, present in both usable variants and absent in `Unset`.
    pub open spec fn domain(self) -> Option<Seq<char>> {
        match self {
            SettingsView::Unset => None,
            SettingsView::Login(login) => Some(login.domain),
            SettingsView::Auth(auth) => Some(auth.domain),
        }
    }
}

impl Settings {
    /// The base URL of the server, or `MissingSettings` where none is
    /// configured.
    pub fn domain(&self) -> (r: Result<&str, Error>)
        ensures
            match self@.domain() {
                Some(domain) => r matches Ok(d) && d@ == domain,
                None => r matches Err(Error::MissingSettings),
            },
    {
        match self {
            Settings::Unset => Err(Error::MissingSettings),
            Settings::Auth(settings) => Ok(settings.domain.as_str()),
            Settings::Login(settings) => Ok(settings.domain.as_str()),
        }
    }
}

} // verus!
