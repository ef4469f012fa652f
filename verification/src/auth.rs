//! The manager dashboard's authentication bookkeeping: a trivial
//! flag-setting record, kept alongside the tracking core because the same
//! control surface drives both.  All three fields are set together by a
//! login and cleared together by a logout.

use vstd::prelude::*;

verus! {

/// Mathematical image of an `AppState`.
pub ghost struct AppStateModel {
    pub is_authenticated: bool,
    pub user_name: Option<Seq<char>>,
    pub organization: Option<Seq<char>>,
}

impl AppStateModel {
    /// Well-formedness: the name and organization are present exactly while
    /// a manager is authenticated.
    pub open spec fn inv(self) -> bool {
        &&& self.is_authenticated == self.user_name is Some
        &&& self.is_authenticated == self.organization is Some
    }

    /// The state a fresh process starts in: nobody authenticated.
    pub open spec fn initial() -> AppStateModel {
        AppStateModel { is_authenticated: false, user_name: None, organization: None }
    }
}

/// Whether a manager is signed in, and as whom.  One per process, created
/// signed-out at process start.
pub struct AppState {
    is_authenticated: bool,
    user_name: Option<String>,
    organization: Option<String>,
}

impl View for AppState {
    type V = AppStateModel;

    closed spec fn view(&self) -> AppStateModel {
        AppStateModel {
            is_authenticated: self.is_authenticated,
            user_name: match self.user_name {
                Some(u) => Some(u@),
                None => None,
            },
            organization: match self.organization {
                Some(o) => Some(o@),
                None => None,
            },
        }
    }
}

impl Default for AppState {
    /// The signed-out state a fresh process starts with.
    fn default() -> (s: AppState)
        ensures
            s@ == AppStateModel::initial(),
            s@.inv(),
    {
        AppState { is_authenticated: false, user_name: None, organization: None }
    }
}

impl AppState {
    /// Sign a manager in: record the name and organization and raise the
    /// authenticated flag.  Always succeeds; signing in over an existing
    /// login simply replaces it.
    pub fn authenticate_manager(&mut self, user_name: String, organization: String) -> (ack:
        String)
        ensures
            final(self)@ == (AppStateModel {
                is_authenticated: true,
                user_name: Some(user_name@),
                organization: Some(organization@),
            }),
            final(self)@.inv(),
            ack@ == "Authentication successful"@,
    {
        self.is_authenticated = true;
        self.user_name = Some(user_name);
        self.organization = Some(organization);
        "Authentication successful".to_owned()
    }

    /// Sign the manager out: clear the name and organization and drop the
    /// authenticated flag.  Always succeeds, also when nobody is signed in.
    pub fn logout_manager(&mut self) -> (ack: String)
        ensures
            final(self)@ == AppStateModel::initial(),
            final(self)@.inv(),
            ack@ == "Logged out successfully"@,
    {
        self.is_authenticated = false;
        self.user_name = None;
        self.organization = None;
        "Logged out successfully".to_owned()
    }

    /// A point-in-time copy of the whole record, for the control surface.
    pub fn get_app_state(&self) -> (s: AppState)
        ensures
            s@ == self@,
    {
        AppState {
            is_authenticated: self.is_authenticated,
            user_name: match &self.user_name {
                Some(u) => Some(u.clone()),
                None => None,
            },
            organization: match &self.organization {
                Some(o) => Some(o.clone()),
                None => None,
            },
        }
    }

    /// Whether a manager is currently signed in.
    pub fn is_authenticated(&self) -> (b: bool)
        ensures
            b == self@.is_authenticated,
    {
        self.is_authenticated
    }

    /// The signed-in manager's name, if any.
    pub fn user_name(&self) -> (u: Option<String>)
        ensures
            match u {
                Some(n) => self@.user_name == Some(n@),
                None => self@.user_name is None,
            },
    {
        match &self.user_name {
            Some(u) => Some(u.clone()),
            None => None,
        }
    }

    /// The signed-in manager's organization, if any.
    pub fn organization(&self) -> (o: Option<String>)
        ensures
            match o {
                Some(n) => self@.organization == Some(n@),
                None => self@.organization is None,
            },
    {
        match &self.organization {
            Some(o) => Some(o.clone()),
            None => None,
        }
    }
}

} // verus!
