use recipe_client::api::{Api, ApiError, ApiInternalError, ApiResponseError};
use recipe_client::handlers::{
    api_error_to_toast, handle_api_failure, logout_on_401, unauthorized_forces_logout,
};
use recipe_client::session::{
    login_api_url, login_redirect_needed, stored_login_for, CurrentLogin, HttpApi, LoginState,
    StorageCommand, StorageModel,
};
use recipe_client::toasts::Toasts;
use recipe_client::types::{passwords_match, LoginToken, StoredLogin};

fn session(tag: &str) -> StoredLogin {
    StoredLogin {
        api_url: format!("https://{tag}.example/api"),
        media_url: format!("https://{tag}.example/media"),
        token: LoginToken {
            kind: String::from("Bearer"),
            token: format!("token-{tag}"),
            expiry: Some(String::from("2030-01-01T00:00:00Z")),
        },
    }
}

#[test]
fn set_session_persists_and_reloads_equal() {
    let s = session("alpha");
    let mut store = CurrentLogin::new(None);
    let mut storage = StorageModel::empty();
    let cmd = store.reduce(Some(s.clone()));
    storage.apply(cmd);
    // A fresh process load starts from what storage holds.
    let loaded = storage.load();
    assert_eq!(loaded, Some(s.clone()));
    let fresh = CurrentLogin::new(loaded);
    assert_eq!(fresh.login, Some(s));
    assert!(fresh.http_api.is_some());
}

#[test]
fn clear_session_persists_and_reloads_empty() {
    let s = session("beta");
    let mut store = CurrentLogin::new(Some(s));
    let mut storage = StorageModel::empty();
    let cmd = store.reduce(None);
    assert!(matches!(cmd, StorageCommand::Remove));
    storage.apply(cmd);
    assert_eq!(storage.load(), None);
    let fresh = CurrentLogin::new(storage.load());
    assert_eq!(fresh.login, None);
    assert_eq!(fresh.http_api, None);
}

#[test]
fn store_derives_a_client_bound_to_the_session() {
    let s = session("gamma");
    let store = CurrentLogin::new(Some(s.clone()));
    let api = store.http_api.expect("client should be derived");
    assert_eq!(api.base_url, s.api_url);
    assert_eq!(api.login_token, Some(s.token));
}

#[test]
fn store_sanitises_a_stored_url_with_a_trailing_slash() {
    let mut s = session("eta");
    s.api_url = String::from("https://eta.example/api/");
    let store = CurrentLogin::new(Some(s));
    let api = store.http_api.expect("client should be derived");
    assert_eq!(api.base_url, "https://eta.example/api");
}

#[test]
fn unauthorized_answer_clears_session_and_storage() {
    let s = session("delta");
    let mut storage = StorageModel::empty();
    let mut store = CurrentLogin::new(None);
    storage.apply(store.reduce(Some(s)));
    let mut toasts = Toasts::new();
    let error = ApiError::Response(ApiResponseError { status_code: 401 });
    let cmd = handle_api_failure(&error, "loading recipes", &mut toasts, &mut store);
    assert_eq!(store.login, None);
    assert_eq!(store.http_api, None);
    let cmd = cmd.expect("a 401 must clear persistent storage");
    storage.apply(cmd);
    assert_eq!(storage.load(), None);
    assert_eq!(toasts.inner.len(), 1);
}

#[test]
fn the_logout_cascade_empties_store_and_storage() {
    let s = session("zeta");
    let mut storage = StorageModel::empty();
    let mut store = CurrentLogin::new(None);
    storage.apply(store.reduce(Some(s)));
    let mut toasts = Toasts::new();
    let error = ApiError::Response(ApiResponseError { status_code: 401 });
    unauthorized_forces_logout(&error, "saving recipe title", &mut toasts, &mut store, &mut storage);
    assert_eq!(store.login, None);
    assert_eq!(storage.load(), None);
    assert_eq!(
        toasts.inner[0].message,
        "Action failed received status code '401', when saving recipe title"
    );
}

#[test]
fn other_failures_leave_the_session_alone() {
    let s = session("epsilon");
    let mut store = CurrentLogin::new(Some(s.clone()));
    let mut toasts = Toasts::new();
    let error = ApiError::Response(ApiResponseError { status_code: 500 });
    let cmd = handle_api_failure(&error, "loading recipes", &mut toasts, &mut store);
    assert_eq!(cmd, None);
    assert_eq!(store.login, Some(s));
    assert_eq!(toasts.inner.len(), 1);

    let mut store2 = CurrentLogin::new(None);
    let connection = ApiError::Internal(ApiInternalError::Connection);
    assert_eq!(logout_on_401(&connection, &mut store2), None);
}

#[test]
fn error_messages_embed_the_action() {
    let not_found = ApiError::Response(ApiResponseError { status_code: 404 });
    assert_eq!(
        api_error_to_toast(&not_found, "loading recipe").message,
        "Action failed as resource was not found, when loading recipe"
    );
    let server_error = ApiError::Response(ApiResponseError { status_code: 500 });
    assert_eq!(
        api_error_to_toast(&server_error, "saving recipe title").message,
        "Action failed received status code '500', when saving recipe title"
    );
    let connection = ApiError::Internal(ApiInternalError::Connection);
    assert_eq!(
        api_error_to_toast(&connection, "requesting login").message,
        "Action failed as could not connect to server, when requesting login"
    );
    let parse = ApiError::Internal(ApiInternalError::Deserialization);
    assert_eq!(
        api_error_to_toast(&parse, "loading stats").message,
        "Internal error occurred; action failed, when loading stats"
    );
}

#[test]
fn redirect_fires_exactly_on_a_presence_mismatch() {
    assert!(login_redirect_needed(true, LoginState::NoLogin));
    assert!(login_redirect_needed(false, LoginState::HasLogin));
    assert!(!login_redirect_needed(true, LoginState::HasLogin));
    assert!(!login_redirect_needed(false, LoginState::NoLogin));
}

#[test]
fn login_urls_are_derived_from_the_chosen_server() {
    assert_eq!(login_api_url("https://cook.example/"), "https://cook.example/api");
    assert_eq!(login_api_url("https://cook.example"), "https://cook.example/api");
    let token = LoginToken { kind: String::from("Bearer"), token: String::from("t"), expiry: None };
    let stored = stored_login_for("https://cook.example", token.clone());
    assert_eq!(stored.api_url, "https://cook.example/api");
    assert_eq!(stored.media_url, "https://cook.example/media");
    assert_eq!(stored.token, token.clone());
    // A server address with a trailing slash is sanitised once before
    // the roots are appended.
    let stored = stored_login_for("https://cook.example/", token);
    assert_eq!(stored.api_url, "https://cook.example/api");
    assert_eq!(stored.media_url, "https://cook.example/media");
}

#[test]
fn image_addresses_live_under_the_media_root() {
    assert_eq!(
        recipe_client::session::media_image_url("https://cook.example/media", "img7"),
        "https://cook.example/media/recipe-image/img7"
    );
}

#[test]
fn http_api_wrapper_follows_the_session() {
    let mut wrapper = HttpApi::new(None);
    assert_eq!(wrapper.inner, None);
    let api = Api::new(String::from("https://cook.example/api"), None);
    wrapper.reduce(Some(api.clone()));
    assert_eq!(wrapper.inner, Some(api));
}

#[test]
fn password_confirmation_must_agree() {
    assert!(passwords_match("secret", "secret"));
    assert!(!passwords_match("secret", "secrets"));
}
