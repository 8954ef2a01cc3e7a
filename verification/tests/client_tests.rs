use rte_api::RteApi;

#[test]
fn new_client_points_at_production_and_holds_no_token() {
    let api = RteApi::new("id".to_string(), "secret".to_string());
    assert_eq!(api.base_url(), "https://digital.iservices.rte-france.com/");
    assert_eq!(api.client_id(), "id");
    assert_eq!(api.client_secret(), "secret");
    assert!(api.current_token().is_none());
}

#[test]
fn base_url_can_be_overridden() {
    let api = RteApi::new("id".to_string(), "secret".to_string())
        .with_base_url("http://localhost:8080".to_string());
    assert_eq!(api.base_url(), "http://localhost:8080");
    assert_eq!(api.client_id(), "id");
}

#[test]
fn token_url_is_the_oauth_token_endpoint() {
    let api = RteApi::new("id".to_string(), "secret".to_string())
        .with_base_url("http://host".to_string());
    assert_eq!(api.token_url(), "http://host/oauth/token");
}

#[test]
fn stored_token_is_returned_until_replaced() {
    let mut api = RteApi::new("id".to_string(), "secret".to_string());
    api.set_token("bearer-one".to_string());
    assert_eq!(api.get_token(), "bearer-one");
    assert_eq!(api.current_token(), Some(&"bearer-one".to_string()));
    api.set_token("bearer-two".to_string());
    assert_eq!(api.get_token(), "bearer-two");
}

#[test]
fn set_token_leaves_everything_else_untouched() {
    let mut api = RteApi::new("id".to_string(), "secret".to_string())
        .with_base_url("http://host".to_string());
    api.set_token("t".to_string());
    assert_eq!(api.client_id(), "id");
    assert_eq!(api.client_secret(), "secret");
    assert_eq!(api.base_url(), "http://host");
}
