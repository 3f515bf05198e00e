//! The credentials a request is signed with.

use vstd::prelude::*;

verus! {

/// The authentication provider: the application's static key and secret, and
/// the bearer token of the moment, if one has been issued.
#[derive(Debug)]
pub struct Auth {
    appkey: String,
    appsecret: String,
    token: Option<String>,
}

impl Auth {
    /// The application key.
    pub closed spec fn appkey(&self) -> Seq<char> {
        self.appkey@
    }

    /// The application secret.
    pub closed spec fn appsecret(&self) -> Seq<char> {
        self.appsecret@
    }

    /// The bearer token, where one is held.
    pub closed spec fn token(&self) -> Option<Seq<char>> {
        match self.token {
            Some(t) => Some(t@),
            None => None,
        }
    }

    /// A provider with the given credentials.
    pub fn new(appkey: String, appsecret: String, token: Option<String>) -> (auth: Auth)
        ensures
            auth.appkey() == appkey@,
            auth.appsecret() == appsecret@,
            auth.token() == token.deep_view(),
    {
        Auth { appkey, appsecret, token }
    }

    /// The bearer token, where one is held.
    pub fn get_token(&self) -> (token: Option<String>)
        ensures
            token.deep_view() == self.token(),
    {
        match &self.token {
            Some(t) => Some(t.clone()),
            None => None,
        }
    }

    /// The application key.
    pub fn get_appkey(&self) -> (appkey: String)
        ensures
            appkey@ == self.appkey(),
    {
        self.appkey.clone()
    }

    /// The application secret.
    pub fn get_appsecret(&self) -> (appsecret: String)
        ensures
            appsecret@ == self.appsecret(),
    {
        self.appsecret.clone()
    }
}

impl Clone for Auth {
    fn clone(&self) -> (copy: Self)
        ensures
            copy.appkey() == self.appkey(),
            copy.appsecret() == self.appsecret(),
            copy.token() == self.token(),
    {
        Auth {
            appkey: self.appkey.clone(),
            appsecret: self.appsecret.clone(),
            token: self.get_token(),
        }
    }
}

} // verus!
