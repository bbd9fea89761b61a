//! The API client: base-URL handling, the closed error taxonomy, the
//! request each operation performs, and the classification of every
//! transport outcome.
//!
//! The client is split from the transport: each operation builds a
//! [`RequestPlan`] saying exactly which request to send, and
//! [`interpret_response`] turns what came back into the operation's
//! result.  The unverified shell performs the send between the two.

use crate::recipe::{CreateRecipe, UpdateRecipe};
use crate::types::{CreateUser, Login, LoginToken, RecipesFilter, StoredLogin};
use vstd::prelude::*;

verus! {

/// The character sequence `base` with a single trailing `/` removed,
/// if one is present.
pub open spec fn spec_sanitise_base_url(base: Seq<char>) -> Seq<char> {
    if base.len() > 0 && base.last() == '/' {
        base.drop_last()
    } else {
        base
    }
}

/// Strip a single trailing slash from a base URL.
pub fn sanitise_base_url(base: String) -> (r: String)
    ensures
        r@ == spec_sanitise_base_url(base@),
{
    let len = base.as_str().unicode_len();
    if len > 0 && base.as_str().get_char(len - 1) == '/' {
        let r = base.as_str().substring_char(0, len - 1);
        assert(r@ =~= base@.drop_last());
        r.to_owned()
    } else {
        base
    }
}

/// A failure before or beside any server answer: the connection could not
/// be made, the answer's body did not parse, or the transport failed in
/// some other way.
#[derive(Debug, Clone, Copy, PartialEq, Eq, Structural)]
pub enum ApiInternalError {
    Connection,
    Deserialization,
    Generic,
}

/// A server answer with a status outside the success range.
#[derive(Debug, Clone, Copy, PartialEq, Eq, Structural)]
pub struct ApiResponseError {
    pub status_code: u16,
}

/// Every way an API call can fail: either the transport failed before a
/// status existed, or the server answered with a non-success status.
#[derive(Debug, Clone, Copy, PartialEq, Eq, Structural)]
pub enum ApiError {
    Internal(ApiInternalError),
    Response(ApiResponseError),
}

/// The HTTP methods the client uses.
#[derive(Debug, Clone, Copy, PartialEq, Eq, Structural)]
pub enum HttpMethod {
    Get,
    Post,
    Patch,
    Delete,
}

/// The body a request carries.
#[derive(Debug, Clone, PartialEq)]
pub enum ApiPayload {
    NoBody,
    Credentials(Login),
    NewUser(CreateUser),
    NewRecipe(CreateRecipe),
    RecipeUpdate(UpdateRecipe),
    ImageUpload(Vec<u8>),
}

/// One fully-described request: what to send, where, and with which
/// authorization header.
#[derive(Debug, Clone, PartialEq)]
pub struct RequestPlan {
    pub method: HttpMethod,
    pub url: String,
    pub authorization: Option<String>,
    pub body: ApiPayload,
}

/// The authorization header derived from a credential: its kind, a
/// space, and the token.
pub open spec fn spec_auth_text(t: crate::types::LoginTokenView) -> Seq<char> {
    t.kind + seq![' '] + t.token
}

/// The API facade: a sanitised base URL and an optional credential that
/// every authenticated request carries.
#[derive(Debug, Clone, PartialEq)]
pub struct Api {
    pub base_url: String,
    pub login_token: Option<LoginToken>,
}

/// Mathematical model of an [`Api`].
pub struct ApiView {
    pub base_url: Seq<char>,
    pub login_token: Option<crate::types::LoginTokenView>,
}

impl View for Api {
    type V = ApiView;

    open spec fn view(&self) -> ApiView {
        ApiView {
            base_url: self.base_url@,
            login_token: match self.login_token {
                Some(ref t) => Some(t@),
                None => None,
            },
        }
    }
}

impl Api {
    /// Bind a client to a base URL, stripping one trailing slash, and to
    /// an optional credential.
    pub fn new(base: String, token: Option<LoginToken>) -> (r: Self)
        ensures
            r.base_url@ == spec_sanitise_base_url(base@),
            r.login_token == token,
    {
        Api { base_url: sanitise_base_url(base), login_token: token }
    }

    /// The value of the authorization header, when a credential is held:
    /// the credential's kind, a space, and its token.
    pub fn get_authorization_value(&self) -> (r: Option<String>)
        ensures
            match self.login_token {
                Some(ref t) => r matches Some(s) && s@ == spec_auth_text(t@),
                None => r is None,
            },
    {
        match &self.login_token {
            Some(token) => {
                proof {
                    reveal_strlit(" ");
                }
                let s = token.kind.clone().concat(" ").concat(token.token.as_str());
                assert(s@ =~= spec_auth_text(token@));
                Some(s)
            },
            None => None,
        }
    }
}

impl Api {
    /// The client a stored session denotes: as with any construction,
    /// its API URL with one trailing slash stripped, and its credential.
    pub fn from_stored(login: StoredLogin) -> (r: Self)
        ensures
            r.base_url@ == spec_sanitise_base_url(login.api_url@),
            r.login_token == Some(login.token),
    {
        Api::new(login.api_url, Some(login.token))
    }
}

impl Api {
    /// The login request: no authorization, the credentials as body.
    pub fn post_login(&self, login: Login) -> (r: RequestPlan)
        ensures
            r.method == HttpMethod::Post,
            r.url@ == self.base_url@ + "/login/"@,
            r.authorization is None,
            r.body matches ApiPayload::Credentials(l) && l == login,
    {
        RequestPlan {
            method: HttpMethod::Post,
            url: self.base_url.clone().concat("/login/"),
            authorization: None,
            body: ApiPayload::Credentials(login),
        }
    }

    /// The account-creation request: no authorization, the details as
    /// body.
    pub fn post_create_account(&self, details: CreateUser) -> (r: RequestPlan)
        ensures
            r.method == HttpMethod::Post,
            r.url@ == self.base_url@ + "/users/"@,
            r.authorization is None,
            r.body matches ApiPayload::NewUser(d) && d == details,
    {
        RequestPlan {
            method: HttpMethod::Post,
            url: self.base_url.clone().concat("/users/"),
            authorization: None,
            body: ApiPayload::NewUser(details),
        }
    }

    /// The recipe-listing request for one page: authorized, no body.
    pub fn get_recipes(&self, filter: &RecipesFilter) -> (r: RequestPlan)
        requires
            self.login_token is Some,
        ensures
            r.method == HttpMethod::Get,
            r.url@ == self.base_url@ + "/recipes/?page="@ + crate::numtext::spec_dec_str(
                filter.page as nat,
            ) + "&perPage="@ + crate::numtext::spec_dec_str(filter.per_page as nat),
            self.login_token matches Some(t) ==> (r.authorization matches Some(s) && s@
                == spec_auth_text(t@)),
            r.body is NoBody,
    {
        let url = self.base_url.clone().concat("/recipes/?page=").concat(
            crate::numtext::usize_to_string(filter.page).as_str(),
        ).concat("&perPage=").concat(crate::numtext::usize_to_string(filter.per_page).as_str());
        RequestPlan {
            method: HttpMethod::Get,
            url,
            authorization: self.get_authorization_value(),
            body: ApiPayload::NoBody,
        }
    }

    /// The single-recipe request: authorized, no body.
    pub fn get_recipe_by_id(&self, id: &str) -> (r: RequestPlan)
        requires
            self.login_token is Some,
        ensures
            r.method == HttpMethod::Get,
            r.url@ == self.base_url@ + "/recipes/"@ + id@,
            self.login_token matches Some(t) ==> (r.authorization matches Some(s) && s@
                == spec_auth_text(t@)),
            r.body is NoBody,
    {
        RequestPlan {
            method: HttpMethod::Get,
            url: self.base_url.clone().concat("/recipes/").concat(id),
            authorization: self.get_authorization_value(),
            body: ApiPayload::NoBody,
        }
    }

    /// The recipe-creation request: authorized, the new recipe as body.
    pub fn post_new_recipe(&self, new_recipe: CreateRecipe) -> (r: RequestPlan)
        requires
            self.login_token is Some,
        ensures
            r.method == HttpMethod::Post,
            r.url@ == self.base_url@ + "/recipes/"@,
            self.login_token matches Some(t) ==> (r.authorization matches Some(s) && s@
                == spec_auth_text(t@)),
            r.body matches ApiPayload::NewRecipe(n) && n == new_recipe,
    {
        RequestPlan {
            method: HttpMethod::Post,
            url: self.base_url.clone().concat("/recipes/"),
            authorization: self.get_authorization_value(),
            body: ApiPayload::NewRecipe(new_recipe),
        }
    }

    /// The partial-update request for one recipe: authorized, the fields
    /// to change as body.  Only those fields are changed server-side;
    /// omitted fields are left untouched.
    pub fn patch_update_recipe(&self, id: &str, update: UpdateRecipe) -> (r: RequestPlan)
        requires
            self.login_token is Some,
        ensures
            r.method == HttpMethod::Patch,
            r.url@ == self.base_url@ + "/recipes/"@ + id@,
            self.login_token matches Some(t) ==> (r.authorization matches Some(s) && s@
                == spec_auth_text(t@)),
            r.body matches ApiPayload::RecipeUpdate(u) && u == update,
    {
        RequestPlan {
            method: HttpMethod::Patch,
            url: self.base_url.clone().concat("/recipes/").concat(id),
            authorization: self.get_authorization_value(),
            body: ApiPayload::RecipeUpdate(update),
        }
    }

    /// The recipe-deletion request: authorized, no body.
    pub fn delete_recipe(&self, id: &str) -> (r: RequestPlan)
        requires
            self.login_token is Some,
        ensures
            r.method == HttpMethod::Delete,
            r.url@ == self.base_url@ + "/recipes/"@ + id@,
            self.login_token matches Some(t) ==> (r.authorization matches Some(s) && s@
                == spec_auth_text(t@)),
            r.body is NoBody,
    {
        RequestPlan {
            method: HttpMethod::Delete,
            url: self.base_url.clone().concat("/recipes/").concat(id),
            authorization: self.get_authorization_value(),
            body: ApiPayload::NoBody,
        }
    }

    /// The image-upload request for one recipe: authorized, the image
    /// bytes as body.
    pub fn post_recipe_image(&self, id: &str, image: Vec<u8>) -> (r: RequestPlan)
        requires
            self.login_token is Some,
        ensures
            r.method == HttpMethod::Post,
            r.url@ == self.base_url@ + "/recipes/"@ + id@ + "/image/"@,
            self.login_token matches Some(t) ==> (r.authorization matches Some(s) && s@
                == spec_auth_text(t@)),
            r.body matches ApiPayload::ImageUpload(b) && b == image,
    {
        RequestPlan {
            method: HttpMethod::Post,
            url: self.base_url.clone().concat("/recipes/").concat(id).concat("/image/"),
            authorization: self.get_authorization_value(),
            body: ApiPayload::ImageUpload(image),
        }
    }

    /// The image-deletion request for one recipe: authorized, no body.
    pub fn delete_recipe_image(&self, id: &str) -> (r: RequestPlan)
        requires
            self.login_token is Some,
        ensures
            r.method == HttpMethod::Delete,
            r.url@ == self.base_url@ + "/recipes/"@ + id@ + "/image/"@,
            self.login_token matches Some(t) ==> (r.authorization matches Some(s) && s@
                == spec_auth_text(t@)),
            r.body is NoBody,
    {
        RequestPlan {
            method: HttpMethod::Delete,
            url: self.base_url.clone().concat("/recipes/").concat(id).concat("/image/"),
            authorization: self.get_authorization_value(),
            body: ApiPayload::NoBody,
        }
    }

    /// The account-statistics request: authorized, no body.
    pub fn get_stats(&self) -> (r: RequestPlan)
        requires
            self.login_token is Some,
        ensures
            r.method == HttpMethod::Get,
            r.url@ == self.base_url@ + "/stats/me/"@,
            self.login_token matches Some(t) ==> (r.authorization matches Some(s) && s@
                == spec_auth_text(t@)),
            r.body is NoBody,
    {
        RequestPlan {
            method: HttpMethod::Get,
            url: self.base_url.clone().concat("/stats/me/"),
            authorization: self.get_authorization_value(),
            body: ApiPayload::NoBody,
        }
    }
}

/// How reading and parsing an answer's body went.
#[derive(Debug, Clone, Copy, PartialEq, Eq, Structural)]
pub enum BodyOutcome<T> {
    /// The body parsed into the expected shape.
    Parsed(T),
    /// The body did not parse into the expected shape.
    ParseFailed,
    /// The body could not be read for some other transport reason.
    ReadFailed,
}

/// Everything that can come back from sending a request.
#[derive(Debug, Clone, Copy, PartialEq, Eq, Structural)]
pub enum FetchOutcome<T> {
    /// The connection could not be made; no answer exists.
    ConnectionFailed,
    /// The transport failed some other way before an answer existed.
    TransportFailed,
    /// The server answered with this status; the body outcome is only
    /// meaningful when the status is in the success range.
    Answered(u16, BodyOutcome<T>),
}

/// Whether a status code is in the success range.
pub open spec fn spec_is_success(status: u16) -> bool {
    200 <= status < 300
}

/// Whether a status code is in the success range.
pub fn is_success_status(status: u16) -> (r: bool)
    ensures
        r == spec_is_success(status),
{
    200 <= status && status < 300
}

/// The classification of a transport outcome into the error taxonomy:
/// no connection is a connection error; any other failure before an
/// answer is generic; a non-success status is a response error carrying
/// that status; with a success status, a body that did not parse is a
/// deserialization error, any other read failure is generic, and a
/// parsed body is the result.
pub open spec fn spec_interpret<T>(outcome: FetchOutcome<T>) -> Result<T, ApiError> {
    match outcome {
        FetchOutcome::ConnectionFailed => Err(ApiError::Internal(ApiInternalError::Connection)),
        FetchOutcome::TransportFailed => Err(ApiError::Internal(ApiInternalError::Generic)),
        FetchOutcome::Answered(status, body) => if !spec_is_success(status) {
            Err(ApiError::Response(ApiResponseError { status_code: status }))
        } else {
            match body {
                BodyOutcome::Parsed(v) => Ok(v),
                BodyOutcome::ParseFailed => Err(ApiError::Internal(ApiInternalError::Deserialization)),
                BodyOutcome::ReadFailed => Err(ApiError::Internal(ApiInternalError::Generic)),
            }
        },
    }
}

/// Classify what came back from a request into the operation's result.
pub fn interpret_response<T>(outcome: FetchOutcome<T>) -> (r: Result<T, ApiError>)
    ensures
        r == spec_interpret(outcome),
{
    match outcome {
        FetchOutcome::ConnectionFailed => Err(ApiError::Internal(ApiInternalError::Connection)),
        FetchOutcome::TransportFailed => Err(ApiError::Internal(ApiInternalError::Generic)),
        FetchOutcome::Answered(status, body) => if !is_success_status(status) {
            Err(ApiError::Response(ApiResponseError { status_code: status }))
        } else {
            match body {
                BodyOutcome::Parsed(v) => Ok(v),
                BodyOutcome::ParseFailed => Err(
                    ApiError::Internal(ApiInternalError::Deserialization),
                ),
                BodyOutcome::ReadFailed => Err(ApiError::Internal(ApiInternalError::Generic)),
            }
        },
    }
}

} // verus!
