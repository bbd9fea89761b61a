//! The session store: the single owner of the current session, the only
//! writer of persistent session storage, and the source of the derived
//! API client.
//!
//! The store itself is pure: every mutation returns a [`StorageCommand`]
//! that the unverified shell carries out against durable storage.
//! [`StorageModel`] is the model of that storage, against which the
//! persistence laws are stated.

use crate::api::Api;
use crate::types::{LoginToken, StoredLogin, StoredLoginView};
use vstd::prelude::*;

verus! {

/// The API endpoint root under a chosen server address: the address with
/// one trailing slash stripped, then the API path.
pub fn login_api_url(base: &str) -> (r: String)
    ensures
        r@ == crate::api::spec_sanitise_base_url(base@) + "/api"@,
{
    crate::api::sanitise_base_url(base.to_owned()).concat("/api")
}

/// The address of a recipe image under the session's media root.
pub fn media_image_url(media_url: &str, image_id: &str) -> (r: String)
    ensures
        r@ == media_url@ + "/recipe-image/"@ + image_id@,
{
    media_url.to_owned().concat("/recipe-image/").concat(image_id)
}

/// The session record to keep after a successful authentication: the
/// API and media roots under the chosen server address, sanitised once
/// by stripping a trailing slash, and the token the server handed back.
pub fn stored_login_for(base_url: &str, token: LoginToken) -> (r: StoredLogin)
    ensures
        r@.api_url == crate::api::spec_sanitise_base_url(base_url@) + "/api"@,
        r@.media_url == crate::api::spec_sanitise_base_url(base_url@) + "/media"@,
        r@.token == token@,
{
    let base = crate::api::sanitise_base_url(base_url.to_owned());
    StoredLogin {
        api_url: base.clone().concat("/api"),
        media_url: base.concat("/media"),
        token,
    }
}

/// What the session store asks persistent storage to do.
#[derive(Debug, Clone, PartialEq)]
pub enum StorageCommand {
    /// Write this record under the session key.
    Store(StoredLogin),
    /// Delete the session key.
    Remove,
}

/// Mathematical model of a [`StorageCommand`]: the record the key holds
/// once the command has run.
impl View for StorageCommand {
    type V = Option<StoredLoginView>;

    open spec fn view(&self) -> Option<StoredLoginView> {
        match self {
            StorageCommand::Store(s) => Some(s@),
            StorageCommand::Remove => None,
        }
    }
}

/// The view of an optional session record.
pub open spec fn spec_opt_login_view(o: Option<StoredLogin>) -> Option<StoredLoginView> {
    match o {
        Some(l) => Some(l@),
        None => None,
    }
}

/// The storage command a session change calls for: store the new record,
/// or delete the stored one.
pub open spec fn spec_command_for(action: Option<StoredLoginView>) -> Option<StoredLoginView> {
    action
}

/// The record durable storage holds after a command runs against it: the
/// command alone decides, whatever was stored before.
pub open spec fn spec_apply_command(
    record: Option<StoredLoginView>,
    cmd: Option<StoredLoginView>,
) -> Option<StoredLoginView> {
    cmd
}

/// The model of persistent session storage: one key that holds at most
/// one serialized session record.
pub struct StorageModel {
    pub record: Option<StoredLogin>,
}

impl StorageModel {
    /// The model's view: the stored record, if any.
    pub open spec fn view_record(&self) -> Option<StoredLoginView> {
        match self.record {
            Some(ref r) => Some(r@),
            None => None,
        }
    }

    /// Storage that holds nothing.
    pub fn empty() -> (r: Self)
        ensures
            r.view_record() is None,
    {
        StorageModel { record: None }
    }

    /// Run a command against the storage: `Store` replaces the record,
    /// `Remove` deletes it.
    pub fn apply(&mut self, cmd: StorageCommand)
        ensures
            final(self).view_record() == spec_apply_command(old(self).view_record(), cmd@),
    {
        match cmd {
            StorageCommand::Store(s) => {
                self.record = Some(s);
            },
            StorageCommand::Remove => {
                self.record = None;
            },
        }
    }

    /// Read the record back, as a fresh process load would.
    pub fn load(&self) -> (r: Option<StoredLogin>)
        ensures
            match r {
                Some(l) => self.view_record() == Some(l@),
                None => self.view_record() is None,
            },
    {
        match &self.record {
            Some(l) => Some(l.duplicate()),
            None => None,
        }
    }
}

/// The current session and the API client derived from it.  The two
/// always agree: the client exists exactly while a session does, and is
/// bound to the session's API URL and credential.
#[derive(Debug, Clone, PartialEq)]
pub struct CurrentLogin {
    pub login: Option<StoredLogin>,
    pub http_api: Option<Api>,
}

impl CurrentLogin {
    /// The store is well-formed when the derived client matches the
    /// session: it exists exactly while a session does, and is bound to
    /// the session's API URL, sanitised as every construction is, and
    /// to its credential.
    pub open spec fn wf(&self) -> bool {
        match self.login {
            Some(ref l) => self.http_api matches Some(a) && a@.base_url
                == crate::api::spec_sanitise_base_url(l@.api_url) && a@.login_token == Some(
                l@.token,
            ),
            None => self.http_api is None,
        }
    }

    /// Start the store from whatever a fresh load of persistent storage
    /// yielded: a well-formed record becomes the initial session, none
    /// means starting logged out.  No expiry check happens here; a stale
    /// credential is discovered reactively from an unauthorized answer.
    pub fn new(stored: Option<StoredLogin>) -> (r: Self)
        ensures
            r.wf(),
            match stored {
                Some(l) => r.login == Some(l),
                None => r.login is None,
            },
    {
        match stored {
            Some(l) => {
                let api = Api::from_stored(l.duplicate());
                CurrentLogin { login: Some(l), http_api: Some(api) }
            },
            None => CurrentLogin { login: None, http_api: None },
        }
    }

    /// Replace or clear the session.  The in-memory session becomes the
    /// action's value, the derived client follows it, and the returned
    /// command brings persistent storage to the same record.
    pub fn reduce(&mut self, action: Option<StoredLogin>) -> (cmd: StorageCommand)
        ensures
            final(self).wf(),
            final(self).login == action,
            cmd@ == spec_command_for(spec_opt_login_view(action)),
    {
        match action {
            Some(l) => {
                let cmd = StorageCommand::Store(l.duplicate());
                let api = Api::from_stored(l.duplicate());
                self.login = Some(l);
                self.http_api = Some(api);
                cmd
            },
            None => {
                self.login = None;
                self.http_api = None;
                StorageCommand::Remove
            },
        }
    }
}

/// Setting a session persists it: after `reduce(Some(s))`, running the
/// returned command against any prior storage leaves exactly `s` stored,
/// so a fresh process load yields a session equal to `s`.  Clearing
/// persists too: after `reduce(None)` the storage holds nothing and a
/// fresh load yields no session.
pub proof fn session_changes_persist(prior: Option<StoredLoginView>, s: StoredLoginView)
    ensures
        spec_apply_command(prior, spec_command_for(Some(s))) == Some(s),
        spec_apply_command(prior, spec_command_for(None)) is None,
{
}

/// A wrapper holding the client derived from the session, for parts of
/// the application that only need the client.
#[derive(Debug, Clone, PartialEq)]
pub struct HttpApi {
    pub inner: Option<Api>,
}

impl HttpApi {
    /// Wrap a derived client.
    pub fn new(api: Option<Api>) -> (r: Self)
        ensures
            r.inner == api,
    {
        HttpApi { inner: api }
    }

    /// Replace the wrapped client when the session changes.
    pub fn reduce(&mut self, action: Option<Api>)
        ensures
            final(self).inner == action,
    {
        self.inner = action;
    }
}

/// The session presence a page requires.
#[derive(Debug, Clone, Copy, PartialEq, Eq, Structural)]
pub enum LoginState {
    NoLogin,
    HasLogin,
}

/// Whether a page must navigate away: exactly when the presence of a
/// session differs from the presence the page requires.
pub fn login_redirect_needed(has_login: bool, require_state: LoginState) -> (r: bool)
    ensures
        r == (has_login != (require_state == LoginState::HasLogin)),
{
    match require_state {
        LoginState::HasLogin => !has_login,
        LoginState::NoLogin => has_login,
    }
}

} // verus!
