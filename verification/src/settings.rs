//! Which server to use, and the token to show it.

use crate::api::{Client, ClientView};
use crate::text;
use vstd::prelude::*;

verus! {

/// The settings. An empty token stands for none.
#[derive(Debug)]
pub struct Settings {
    pub server_url: String,
    pub auth_token: String,
}

/// The `Settings`, as characters.
pub struct SettingsView {
    pub server_url: Seq<char>,
    pub auth_token: Seq<char>,
}

impl View for Settings {
    type V = SettingsView;

    open spec fn view(&self) -> SettingsView {
        SettingsView { server_url: self.server_url@, auth_token: self.auth_token@ }
    }
}

impl Clone for Settings {
    fn clone(&self) -> (r: Self)
        ensures
            r == *self,
    {
        Settings { server_url: self.server_url.clone(), auth_token: self.auth_token.clone() }
    }
}

/// The server that is used where none is set.
pub open spec fn default_server() -> Seq<char> {
    "http://127.0.0.1:7700"@
}

impl SettingsView {
    /// The settings with what the command line says put over them, and with a server in
    /// any case.
    pub open spec fn overridden(
        self,
        server: Option<Seq<char>>,
        token: Option<Seq<char>>,
    ) -> SettingsView {
        let server_url = match server {
            Some(s) => s,
            None => self.server_url,
        };
        SettingsView {
            server_url: if server_url.len() == 0 {
                default_server()
            } else {
                server_url
            },
            auth_token: match token {
                Some(t) => t,
                None => self.auth_token,
            },
        }
    }

    /// The token, if there is one.
    pub open spec fn token(self) -> Option<Seq<char>> {
        if self.auth_token.len() == 0 {
            None
        } else {
            Some(self.auth_token)
        }
    }

    /// The client of the server.
    pub open spec fn client(self) -> ClientView {
        ClientView::new(self.server_url, self.token())
    }

    /// The headers that show the token.
    pub open spec fn headers(self) -> Seq<Seq<char>> {
        match self.token() {
            Some(t) => seq!["Authorization: Bearer "@ + t],
            None => Seq::empty(),
        }
    }
}

impl Settings {
    /// Puts what the command line says over the settings, and a server where there is none.
    pub fn override_with(&mut self, server: Option<String>, token: Option<String>)
        ensures
            final(self)@ == old(self)@.overridden(text::opt(server), text::opt(token)),
    {
        if let Some(s) = server {
            self.server_url = s;
        }
        if let Some(t) = token {
            self.auth_token = t;
        }
        if self.server_url.as_str().is_empty() {
            self.server_url = text::copy("http://127.0.0.1:7700");
        }
    }

    /// The token, if there is one.
    pub fn token(&self) -> (r: Option<String>)
        ensures
            text::opt(r) == self@.token(),
    {
        if self.auth_token.as_str().is_empty() {
            None
        } else {
            Some(self.auth_token.clone())
        }
    }

    /// The client of the server.
    pub fn client(&self) -> (r: Client)
        ensures
            r@ == self@.client(),
    {
        Client::new(self.server_url.clone(), self.token())
    }

    /// The headers that show the token to the server when the player opens a stream.
    pub fn headers(&self) -> (r: Vec<String>)
        ensures
            text::texts(r@) == self@.headers(),
    {
        let mut r: Vec<String> = Vec::new();
        if let Some(t) = self.token() {
            r.push(text::cat("Authorization: Bearer ", t.as_str()));
        }
        assert(text::texts(r@) =~= self@.headers());
        r
    }

    /// Whether two settings are the same.
    pub fn same(&self, other: &Settings) -> (r: bool)
        ensures
            r == (self@ == other@),
    {
        text::same(self.server_url.as_str(), other.server_url.as_str()) && text::same(
            self.auth_token.as_str(),
            other.auth_token.as_str(),
        )
    }
}

} // verus!
