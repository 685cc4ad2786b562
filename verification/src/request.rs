use vstd::prelude::*;
use crate::body::ContentType;
use crate::body::ContentTypeView;
use crate::key_value::KeyValue;
use crate::key_value::KeyValueView;
use crate::key_value::copy_rows;
use crate::key_value::views;

verus! {

/// One switch of a request's settings list.
#[derive(Debug)]
pub struct Setting {
    pub name: String,
    pub enabled: bool,
}

/// What a [`Setting`] holds.
#[verifier::ext_equal]
pub struct SettingView {
    pub name: Seq<char>,
    pub enabled: bool,
}

impl View for Setting {
    type V = SettingView;

    open spec fn view(&self) -> SettingView {
        SettingView { name: self.name@, enabled: self.enabled }
    }
}

impl Clone for Setting {
    fn clone(&self) -> (copy: Setting)
        ensures
            copy@ == self@,
    {
        Setting { name: self.name.clone(), enabled: self.enabled }
    }
}

/// A copy of a settings list, in the same order.
pub fn copy_settings(settings: &Vec<Setting>) -> (copy: Vec<Setting>)
    ensures
        views(copy@) == views(settings@),
{
    let mut copy: Vec<Setting> = Vec::new();
    let mut i: usize = 0;
    while i < settings.len()
        invariant
            i <= settings.len(),
            copy.len() == i,
            forall|k: int| 0 <= k < i ==> copy[k]@ == settings[k]@,
        decreases settings.len() - i,
    {
        copy.push(settings[i].clone());
        i += 1;
    }
    assert(views(copy@) =~= views(settings@));
    copy
}

/// How a request authenticates.
#[derive(Debug)]
pub enum Auth {
    NoAuth,
    BasicAuth { username: String, password: String },
    BearerToken { token: String },
}

/// What an [`Auth`] holds.
#[verifier::ext_equal]
pub enum AuthView {
    NoAuth,
    BasicAuth { username: Seq<char>, password: Seq<char> },
    BearerToken { token: Seq<char> },
}

impl View for Auth {
    type V = AuthView;

    open spec fn view(&self) -> AuthView {
        match self {
            Auth::NoAuth => AuthView::NoAuth,
            Auth::BasicAuth { username, password } => AuthView::BasicAuth {
                username: username@,
                password: password@,
            },
            Auth::BearerToken { token } => AuthView::BearerToken { token: token@ },
        }
    }
}

impl AuthView {
    /// The user name of basic authentication; no text otherwise.
    pub open spec fn username(self) -> Seq<char> {
        match self {
            AuthView::BasicAuth { username, password } => username,
            _ => Seq::empty(),
        }
    }

    /// The password of basic authentication; no text otherwise.
    pub open spec fn password(self) -> Seq<char> {
        match self {
            AuthView::BasicAuth { username, password } => password,
            _ => Seq::empty(),
        }
    }

    /// The bearer token; no text where the request carries none.
    pub open spec fn bearer_token(self) -> Seq<char> {
        match self {
            AuthView::BearerToken { token } => token,
            _ => Seq::empty(),
        }
    }
}

impl Auth {
    /// A copy of the user name of basic authentication; no text otherwise.
    pub fn username(&self) -> (text: String)
        ensures
            text@ == self@.username(),
    {
        match self {
            Auth::BasicAuth { username, password } => username.clone(),
            _ => String::new(),
        }
    }

    /// A copy of the password of basic authentication; no text otherwise.
    pub fn password(&self) -> (text: String)
        ensures
            text@ == self@.password(),
    {
        match self {
            Auth::BasicAuth { username, password } => password.clone(),
            _ => String::new(),
        }
    }

    /// A copy of the bearer token; no text where the request carries none.
    pub fn bearer_token(&self) -> (text: String)
        ensures
            text@ == self@.bearer_token(),
    {
        match self {
            Auth::BearerToken { token } => token.clone(),
            _ => String::new(),
        }
    }
}

impl Clone for Auth {
    fn clone(&self) -> (copy: Auth)
        ensures
            copy@ == self@,
    {
        match self {
            Auth::NoAuth => Auth::NoAuth,
            Auth::BasicAuth { username, password } => Auth::BasicAuth {
                username: username.clone(),
                password: password.clone(),
            },
            Auth::BearerToken { token } => Auth::BearerToken { token: token.clone() },
        }
    }
}

/// One HTTP request as the user defined it.
#[derive(Debug)]
pub struct Request {
    pub name: String,
    pub url: String,
    pub params: Vec<KeyValue>,
    pub headers: Vec<KeyValue>,
    pub body: ContentType,
    pub auth: Auth,
    pub settings: Vec<Setting>,
}

/// What a [`Request`] holds.
#[verifier::ext_equal]
pub struct RequestView {
    pub name: Seq<char>,
    pub url: Seq<char>,
    pub params: Seq<KeyValueView>,
    pub headers: Seq<KeyValueView>,
    pub body: ContentTypeView,
    pub auth: AuthView,
    pub settings: Seq<SettingView>,
}

impl View for Request {
    type V = RequestView;

    open spec fn view(&self) -> RequestView {
        RequestView {
            name: self.name@,
            url: self.url@,
            params: views(self.params@),
            headers: views(self.headers@),
            body: self.body@,
            auth: self.auth@,
            settings: views(self.settings@),
        }
    }
}

impl Clone for Request {
    fn clone(&self) -> (copy: Request)
        ensures
            copy@ == self@,
    {
        Request {
            name: self.name.clone(),
            url: self.url.clone(),
            params: copy_rows(&self.params),
            headers: copy_rows(&self.headers),
            body: self.body.clone(),
            auth: self.auth.clone(),
            settings: copy_settings(&self.settings),
        }
    }
}

} // verus!
