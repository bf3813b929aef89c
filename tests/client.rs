use nuclino_rs::{Client, Method, ModifyItem, NewPageBuilder, NuclinoError, Uuid, BASE_URL};

fn client() -> Client {
    Client::create("SECRET-REDACTED", Some("https://example.test"))
}

#[test]
fn create_uses_default_base_url() {
    let c = Client::create("k", None);
    assert_eq!(c.baseurl, BASE_URL);
    assert_eq!(c.baseurl, "https://api.nuclino.com");
    assert_eq!(c.apikey, "k");
}

#[test]
fn missing_key_is_api_key_not_found() {
    let r = Client::from_env_value(None);
    assert_eq!(r.unwrap_err(), NuclinoError::ApiKeyNotFound);
    let c = Client::from_env_value(Some("abc".to_string())).unwrap();
    assert_eq!(c.apikey, "abc");
    assert_eq!(c.baseurl, BASE_URL);
}

#[test]
fn id_endpoints() {
    let c = client();
    let id = Uuid::parse_str("9bff403a-6e0a-4f17-beac-c4333bd719b4").unwrap();
    let r = c.user_request(&id);
    assert_eq!(r.method, Method::Get);
    assert_eq!(r.url, "https://example.test/v0/users/9bff403a-6e0a-4f17-beac-c4333bd719b4");
    assert_eq!(r.authorization, "SECRET-REDACTED");
    assert!(r.body.is_none());
    assert_eq!(c.team_request("t1").url, "https://example.test/v0/teams/t1");
    assert_eq!(
        c.workspace_request(&id).url,
        "https://example.test/v0/workspaces/9bff403a-6e0a-4f17-beac-c4333bd719b4"
    );
    assert_eq!(
        c.page_request(&id).url,
        "https://example.test/v0/items/9bff403a-6e0a-4f17-beac-c4333bd719b4"
    );
    let d = c.page_delete_request(&id);
    assert_eq!(d.method, Method::Delete);
    assert_eq!(d.url, "https://example.test/v0/items/9bff403a-6e0a-4f17-beac-c4333bd719b4");
    assert_eq!(
        c.file_request(&id).url,
        "https://example.test/v0/file/9bff403a-6e0a-4f17-beac-c4333bd719b4"
    );
    let f = c.download_file_request("https://files.test/x?sig=1");
    assert_eq!(f.url, "https://files.test/x?sig=1");
    assert_eq!(f.method, Method::Get);
}

#[test]
fn list_queries() {
    let c = client();
    assert_eq!(c.team_list_request(None, None).url, "https://example.test/v0/teams");
    assert_eq!(c.team_list_request(Some(5), None).url, "https://example.test/v0/teams?limit=5");
    assert_eq!(c.team_list_request(None, Some("abc")).url, "https://example.test/v0/teams?after=abc");
    assert_eq!(
        c.team_list_request(Some(255), Some("abc")).url,
        "https://example.test/v0/teams?limit=255&after=abc"
    );
    assert_eq!(
        c.workspace_list_request(Some(100), Some("x")).url,
        "https://example.test/v0/workspaces?limit=100&after=x"
    );
    assert_eq!(c.workspace_list_request(None, None).url, "https://example.test/v0/workspaces");
}

#[test]
fn page_listing_uses_after_for_the_cursor() {
    let c = client();
    let team = Uuid::from_u128(1);
    let last = Uuid::from_u128(2);
    assert_eq!(
        c.all_pages_for_team_request(&team, Some(10), Some(&last)).url,
        "https://example.test/v0/items?teamId=00000000-0000-0000-0000-000000000001&limit=10&after=00000000-0000-0000-0000-000000000002"
    );
    assert_eq!(
        c.all_pages_for_workspace_request(&team, None, None).url,
        "https://example.test/v0/items?workspaceId=00000000-0000-0000-0000-000000000001"
    );
    assert_eq!(
        c.all_pages_for_workspace_request(&team, None, Some(&last)).url,
        "https://example.test/v0/items?workspaceId=00000000-0000-0000-0000-000000000001&after=00000000-0000-0000-0000-000000000002"
    );
}

#[test]
fn search_text_is_percent_encoded() {
    let c = client();
    let team = Uuid::from_u128(1);
    assert_eq!(
        c.search_team_request(&team, "a b&c/ü", Some(3)).url,
        "https://example.test/v0/items?teamId=00000000-0000-0000-0000-000000000001&search=a%20b%26c%2F%C3%BC&limit=3"
    );
    assert_eq!(
        c.search_workspace_request(&team, "plain-text_1.~", None).url,
        "https://example.test/v0/items?workspaceId=00000000-0000-0000-0000-000000000001&search=plain-text_1.~"
    );
}

#[test]
fn create_and_update_carry_bodies() {
    let c = client();
    let w = Uuid::from_u128(3);
    let page = NewPageBuilder::item().title("T").workspace(&w).build();
    let r = c.page_create_request(&page);
    assert_eq!(r.method, Method::Post);
    assert_eq!(r.url, "https://example.test/v0/items");
    assert_eq!(
        r.body.unwrap(),
        r#"{"workspaceId":"00000000-0000-0000-0000-000000000003","title":"T","object":"item"}"#
    );
    let m = ModifyItem { title: None, content: Some("body".to_string()) };
    let r = c.page_update_request(&w, &m);
    assert_eq!(r.method, Method::Put);
    assert_eq!(r.url, "https://example.test/v0/items/00000000-0000-0000-0000-000000000003");
    assert_eq!(r.body.unwrap(), r#"{"content":"body"}"#);
}

#[test]
fn make_error_splits_at_500() {
    assert_eq!(
        nuclino_rs::make_error(404, "nope".to_string()),
        NuclinoError::ClientError { status: 404, message: "nope".to_string() }
    );
    assert_eq!(
        nuclino_rs::make_error(500, "boom".to_string()),
        NuclinoError::ServerError { status: 500, message: "boom".to_string() }
    );
}
