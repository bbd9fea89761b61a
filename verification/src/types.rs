//! Account and session records, and the listing filter.

use vstd::prelude::*;

verus! {

/// Credentials submitted when logging in.
#[derive(Debug, Clone, PartialEq)]
pub struct Login {
    pub username: String,
    pub password: String,
}

/// Mathematical model of a [`Login`].
pub struct LoginView {
    pub username: Seq<char>,
    pub password: Seq<char>,
}

impl View for Login {
    type V = LoginView;

    open spec fn view(&self) -> LoginView {
        LoginView { username: self.username@, password: self.password@ }
    }
}

/// A bearer credential returned by the authentication endpoint: a token
/// kind (for example `Bearer`), the token itself, and an expiry stamp the
/// client stores but never interprets (expiry is discovered reactively
/// from an unauthorized response, not checked proactively).
#[derive(Debug, Clone, PartialEq)]
pub struct LoginToken {
    pub kind: String,
    pub token: String,
    pub expiry: Option<String>,
}

/// Mathematical model of a [`LoginToken`].
pub struct LoginTokenView {
    pub kind: Seq<char>,
    pub token: Seq<char>,
    pub expiry: Option<Seq<char>>,
}

impl View for LoginToken {
    type V = LoginTokenView;

    open spec fn view(&self) -> LoginTokenView {
        LoginTokenView {
            kind: self.kind@,
            token: self.token@,
            expiry: match self.expiry {
                Some(ref e) => Some(e@),
                None => None,
            },
        }
    }
}

impl LoginToken {
    /// Copy of the token, equal under the view.
    pub fn duplicate(&self) -> (r: Self)
        ensures
            r@ == self@,
    {
        LoginToken {
            kind: self.kind.clone(),
            token: self.token.clone(),
            expiry: match &self.expiry {
                Some(e) => Some(e.clone()),
                None => None,
            },
        }
    }
}

/// The session record persisted between runs: where the API and the media
/// server live, and the credential to present.
#[derive(Debug, Clone, PartialEq)]
pub struct StoredLogin {
    pub api_url: String,
    pub media_url: String,
    pub token: LoginToken,
}

/// Mathematical model of a [`StoredLogin`].
pub struct StoredLoginView {
    pub api_url: Seq<char>,
    pub media_url: Seq<char>,
    pub token: LoginTokenView,
}

impl View for StoredLogin {
    type V = StoredLoginView;

    open spec fn view(&self) -> StoredLoginView {
        StoredLoginView {
            api_url: self.api_url@,
            media_url: self.media_url@,
            token: self.token@,
        }
    }
}

impl StoredLogin {
    /// Copy of the record, equal under the view.
    pub fn duplicate(&self) -> (r: Self)
        ensures
            r@ == self@,
    {
        StoredLogin {
            api_url: self.api_url.clone(),
            media_url: self.media_url.clone(),
            token: self.token.duplicate(),
        }
    }
}

/// Details submitted when creating an account.
#[derive(Debug, Clone, PartialEq)]
pub struct CreateUser {
    pub username: String,
    pub password: String,
}

/// Whether the two password inputs of the account-creation form agree;
/// submission is refused while they differ.
pub fn passwords_match(password: &str, confirm: &str) -> (r: bool)
    ensures
        r == (password@ == confirm@),
{
    let a = password.to_owned();
    let b = confirm.to_owned();
    a.eq(&b)
}

/// An account as reported by the server.
#[derive(Debug, Clone, PartialEq)]
pub struct User {
    pub username: String,
}

/// Account-wide statistics shown on the home page.
#[derive(Debug, Clone, Copy, PartialEq, Eq, Structural)]
pub struct AccountStats {
    pub user_count: u64,
    pub recipe_count: u64,
}

/// Page selection for the recipe listing.
#[derive(Debug, Clone, Copy, PartialEq, Eq, Structural)]
pub struct RecipesFilter {
    pub page: usize,
    pub per_page: usize,
}

pub const FIRST_PAGE: usize = 1;

pub const DEFAULT_PER_PAGE: usize = 20;

impl Default for RecipesFilter {
    /// The first page, twenty recipes at a time.
    fn default() -> (r: Self)
        ensures
            r.page == FIRST_PAGE,
            r.per_page == DEFAULT_PER_PAGE,
    {
        RecipesFilter { page: FIRST_PAGE, per_page: DEFAULT_PER_PAGE }
    }
}

impl RecipesFilter {
    /// The filter for the page after this one.
    pub fn next_page(&self) -> (r: Self)
        requires
            self.page < usize::MAX,
        ensures
            r.page == self.page + 1,
            r.per_page == self.per_page,
    {
        RecipesFilter { page: self.page + 1, per_page: self.per_page }
    }
}

/// Whether a page of `returned` items means more pages may follow: a page
/// filled exactly to `per_page` keeps the "load more" affordance available,
/// a shorter page is the end of the list.
pub fn more_pages_available(filter: &RecipesFilter, returned: usize) -> (r: bool)
    ensures
        r == (returned == filter.per_page),
{
    returned == filter.per_page
}

} // verus!
