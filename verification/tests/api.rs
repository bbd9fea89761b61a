use recipe_client::api::{
    interpret_response, is_success_status, sanitise_base_url, Api, ApiError, ApiInternalError,
    ApiPayload, ApiResponseError, BodyOutcome, FetchOutcome, HttpMethod,
};
use recipe_client::baseurl::api_host_preview;
use recipe_client::numtext::{u16_to_string, u64_to_string};
use recipe_client::recipe::{append_page, Info, Recipe, UpdateRecipe};
use recipe_client::types::{Login, LoginToken, RecipesFilter, StoredLogin};

fn client() -> Api {
    Api::new(
        String::from("https://cook.example/api/"),
        Some(LoginToken {
            kind: String::from("Bearer"),
            token: String::from("abc123"),
            expiry: None,
        }),
    )
}

#[test]
fn base_url_loses_one_trailing_slash() {
    assert_eq!(sanitise_base_url(String::from("https://x/")), "https://x");
    assert_eq!(sanitise_base_url(String::from("https://x")), "https://x");
    assert_eq!(sanitise_base_url(String::from("x//")), "x/");
    assert_eq!(sanitise_base_url(String::new()), "");
}

#[test]
fn authorization_header_is_kind_space_token() {
    let api = client();
    assert_eq!(api.get_authorization_value(), Some(String::from("Bearer abc123")));
    let anonymous = Api::new(String::from("https://x"), None);
    assert_eq!(anonymous.get_authorization_value(), None);
}

#[test]
fn login_request_carries_no_authorization() {
    let api = client();
    let plan = api.post_login(Login {
        username: String::from("leo"),
        password: String::from("pw"),
    });
    assert_eq!(plan.method, HttpMethod::Post);
    assert_eq!(plan.url, "https://cook.example/api/login/");
    assert_eq!(plan.authorization, None);
    assert!(matches!(plan.body, ApiPayload::Credentials(_)));
}

#[test]
fn listing_request_names_page_and_size() {
    let api = client();
    let plan = api.get_recipes(&RecipesFilter { page: 2, per_page: 20 });
    assert_eq!(plan.method, HttpMethod::Get);
    assert_eq!(plan.url, "https://cook.example/api/recipes/?page=2&perPage=20");
    assert_eq!(plan.authorization, Some(String::from("Bearer abc123")));
    assert_eq!(plan.body, ApiPayload::NoBody);
}

#[test]
fn partial_update_request_is_a_patch_on_the_recipe() {
    let api = client();
    let plan = api.patch_update_recipe("r17", UpdateRecipe::empty());
    assert_eq!(plan.method, HttpMethod::Patch);
    assert_eq!(plan.url, "https://cook.example/api/recipes/r17");
    assert_eq!(plan.authorization, Some(String::from("Bearer abc123")));
    assert!(matches!(plan.body, ApiPayload::RecipeUpdate(_)));
}

#[test]
fn image_requests_address_the_image_endpoint() {
    let api = client();
    let upload = api.post_recipe_image("r17", vec![1, 2, 3]);
    assert_eq!(upload.method, HttpMethod::Post);
    assert_eq!(upload.url, "https://cook.example/api/recipes/r17/image/");
    assert!(matches!(upload.body, ApiPayload::ImageUpload(_)));
    let delete = api.delete_recipe_image("r17");
    assert_eq!(delete.method, HttpMethod::Delete);
    assert_eq!(delete.url, "https://cook.example/api/recipes/r17/image/");
}

#[test]
fn stats_and_single_recipe_requests() {
    let api = client();
    assert_eq!(api.get_stats().url, "https://cook.example/api/stats/me/");
    assert_eq!(api.get_recipe_by_id("r9").url, "https://cook.example/api/recipes/r9");
    assert_eq!(api.delete_recipe("r9").method, HttpMethod::Delete);
}

#[test]
fn classification_follows_the_taxonomy() {
    assert_eq!(
        interpret_response::<u32>(FetchOutcome::ConnectionFailed),
        Err(ApiError::Internal(ApiInternalError::Connection))
    );
    assert_eq!(
        interpret_response::<u32>(FetchOutcome::TransportFailed),
        Err(ApiError::Internal(ApiInternalError::Generic))
    );
    assert_eq!(
        interpret_response::<u32>(FetchOutcome::Answered(404, BodyOutcome::ReadFailed)),
        Err(ApiError::Response(ApiResponseError { status_code: 404 }))
    );
    assert_eq!(
        interpret_response::<u32>(FetchOutcome::Answered(200, BodyOutcome::ParseFailed)),
        Err(ApiError::Internal(ApiInternalError::Deserialization))
    );
    assert_eq!(
        interpret_response::<u32>(FetchOutcome::Answered(200, BodyOutcome::ReadFailed)),
        Err(ApiError::Internal(ApiInternalError::Generic))
    );
    assert_eq!(
        interpret_response::<u32>(FetchOutcome::Answered(204, BodyOutcome::Parsed(7))),
        Ok(7)
    );
}

#[test]
fn success_range_is_the_two_hundreds() {
    assert!(is_success_status(200));
    assert!(is_success_status(299));
    assert!(!is_success_status(199));
    assert!(!is_success_status(300));
    assert!(!is_success_status(404));
}

#[test]
fn derived_client_sanitises_the_stored_url_and_keeps_the_token() {
    let stored = StoredLogin {
        api_url: String::from("https://cook.example/api"),
        media_url: String::from("https://cook.example/media"),
        token: LoginToken {
            kind: String::from("Bearer"),
            token: String::from("t"),
            expiry: None,
        },
    };
    let api = Api::from_stored(stored.clone());
    assert_eq!(api.base_url, stored.api_url);
    assert_eq!(api.login_token, Some(stored.token.clone()));
    // A stored URL with a trailing slash loses it, as at every
    // construction of the client.
    let mut slashed = stored;
    slashed.api_url = String::from("https://cook.example/api/");
    let api = Api::from_stored(slashed);
    assert_eq!(api.base_url, "https://cook.example/api");
}

#[test]
fn decimal_rendering() {
    assert_eq!(u64_to_string(0), "0");
    assert_eq!(u64_to_string(1000), "1000");
    assert_eq!(u64_to_string(18446744073709551615), "18446744073709551615");
    assert_eq!(u16_to_string(65535), "65535");
    assert_eq!(u16_to_string(401), "401");
}

#[test]
fn host_preview_extracts_the_host() {
    assert_eq!(api_host_preview("https://cook.example/somewhere"), Some(String::from("cook.example")));
    assert_eq!(api_host_preview("https://cook.example/"), Some(String::from("cook.example")));
    assert_eq!(api_host_preview(""), None);
    assert_eq!(api_host_preview("not a url"), None);
    assert_eq!(api_host_preview("mailto:leo"), None);
}

#[test]
fn listing_progress_decides_the_load_more_affordance() {
    let filter = RecipesFilter::default();
    assert_eq!(filter.page, 1);
    assert_eq!(filter.per_page, 20);
    // A full page keeps "load more" available, a short page ends the list.
    assert!(recipe_client::types::more_pages_available(&filter, 20));
    assert!(!recipe_client::types::more_pages_available(&filter, 19));
    assert!(!recipe_client::types::more_pages_available(&filter, 0));
    let next = filter.next_page();
    assert_eq!(next.page, 2);
    assert_eq!(next.per_page, 20);
}

fn named(id: &str) -> Recipe {
    Recipe {
        id: String::from(id),
        owner_id: String::from("u"),
        title: String::from(id),
        short_description: None,
        long_description: None,
        tags: Vec::new(),
        ingredients: Vec::new(),
        steps: Vec::new(),
        info: Info { yields: None },
        image_id: None,
    }
}

#[test]
fn loaded_pages_accumulate_in_order() {
    let mut listing = vec![named("a")];
    append_page(&mut listing, vec![named("b"), named("c")]);
    let ids: Vec<&str> = listing.iter().map(|r| r.id.as_str()).collect();
    assert_eq!(ids, vec!["a", "b", "c"]);
}
