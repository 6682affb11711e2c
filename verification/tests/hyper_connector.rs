use telegram_bot::connector::hyper::{
    parse_uri, plan_request, prepare_request, response_body, HttpMethod, HyperConnector, RequestBody, JSON_CONTENT_TYPE,
};

#[test]
fn get_with_empty_body_has_no_body() {
    let plan = plan_request(HttpMethod::Get, RequestBody::Empty);
    assert_eq!(plan.method, HttpMethod::Get);
    assert_eq!(plan.body, None);
}

#[test]
fn json_body_goes_out_as_json() {
    let plan = plan_request(HttpMethod::Post, RequestBody::Json("{\"a\":1}".to_string()));
    assert_eq!(plan.method, HttpMethod::Post);
    assert_eq!(plan.body, Some(("application/json", "{\"a\":1}".to_string())));
    assert_eq!(JSON_CONTENT_TYPE, "application/json");
}

#[test]
fn response_body_keeps_bytes_or_is_empty() {
    assert_eq!(response_body::<String>(Ok(vec![1, 2, 3])), vec![1, 2, 3]);
    assert_eq!(response_body::<String>(Err("broken".to_string())), Vec::<u8>::new());
}

#[test]
fn hyper_connector_wraps_client() {
    let connector = HyperConnector::new(hyper::Client::new());
    assert_eq!(connector.describe(), "hyper connector");
    let _client: &hyper::Client<hyper::client::HttpConnector> = connector.client();
}

#[test]
fn prepare_request_parses_url_and_plans() {
    let call = prepare_request("https://api.telegram.org/bot123:abc/getMe", HttpMethod::Get, RequestBody::Empty)
        .unwrap()
        .unwrap();
    assert_eq!(call.uri.to_string(), "https://api.telegram.org/bot123:abc/getMe");
    assert_eq!(call.uri.host(), Some("api.telegram.org"));
    assert_eq!(call.uri.path(), "/bot123:abc/getMe");
    assert_eq!(call.plan.method, HttpMethod::Get);
    assert_eq!(call.plan.body, None);

    let call = prepare_request("https://api.telegram.org/botX/sendMessage", HttpMethod::Post, RequestBody::Json("{}".to_string()))
        .unwrap()
        .unwrap();
    assert_eq!(call.plan.body, Some((JSON_CONTENT_TYPE, "{}".to_string())));
}

#[test]
fn prepare_request_fails_on_bad_url_before_body() {
    assert!(parse_uri("http://bad host/x").is_err());
    assert!(prepare_request("http://bad host/x", HttpMethod::Get, RequestBody::Empty).is_err());
    assert!(prepare_request("http://bad host/x", HttpMethod::Post, RequestBody::Unsupported).is_err());
    assert!(prepare_request("https://api.telegram.org/botX/sendPhoto", HttpMethod::Post, RequestBody::Unsupported)
        .unwrap()
        .is_none());
}
