use telegram_bot::api::{settle_timeout, Api, ConnectorConfig};

#[test]
fn configure_keeps_token_and_builds_with_default_connector() {
    let api = Api::<u32>::configure("123:abc").build(|| Ok::<u32, String>(7)).unwrap();
    assert_eq!(api.token(), "123:abc");
    assert_eq!(*api.connector(), 7);
}

#[test]
fn specified_connector_is_used_without_making_default() {
    let api = Api::<u32>::configure("tok")
        .connector(42)
        .build(|| -> Result<u32, String> { panic!("the default connector must not be made") })
        .unwrap();
    assert_eq!(api.token(), "tok");
    assert_eq!(*api.connector(), 42);
}

#[test]
fn default_connector_failure_fails_build() {
    let r = Api::<u32>::configure("tok").build(|| Err::<u32, String>("no tls".to_string()));
    match r {
        Err(e) => assert_eq!(e, "no tls"),
        Ok(_) => panic!("build must fail"),
    }
}

#[test]
fn connector_config_take() {
    let c: ConnectorConfig<u8> = ConnectorConfig::new(3);
    assert_eq!(c.take(|| Err::<u8, ()>(())), Ok(3));
    let d: ConnectorConfig<u8> = Default::default();
    assert!(matches!(d, ConnectorConfig::Default));
    assert_eq!(d.take(|| Ok::<u8, ()>(9)), Ok(9));
}

#[test]
fn clone_shares_token_and_connector() {
    let api = Api::<String>::configure("t1").connector("conn".to_string()).build(|| Err::<String, ()>(())).unwrap();
    let other = api.clone();
    assert_eq!(other.token(), "t1");
    assert_eq!(other.connector(), "conn");
}

#[test]
fn settle_timeout_cases() {
    assert_eq!(settle_timeout::<u8, String>(None), Ok(None));
    assert_eq!(settle_timeout::<u8, String>(Some(Ok(4))), Ok(Some(4)));
    assert_eq!(settle_timeout::<u8, String>(Some(Err("bad".to_string()))), Err("bad".to_string()));
}
