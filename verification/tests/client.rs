use matrix_api::client::MatrixClient;

#[test]
fn new_client_has_the_base_url_and_no_token() {
    let client = MatrixClient::new("http://my.matrix.host:8008");
    assert_eq!(client.get_base_url(), "http://my.matrix.host:8008");
    assert!(client.get_access_token().is_none());
}

#[test]
fn login_stores_the_token_as_a_bearer_header() {
    let mut client = MatrixClient::new("http://my.matrix.host:8008");
    client.set_access_token("secret-token".to_string());
    assert_eq!(client.get_access_token().as_deref(), Some("Bearer secret-token"));
    assert_eq!(client.get_base_url(), "http://my.matrix.host:8008");
}

#[test]
fn logout_clears_the_token() {
    let mut client = MatrixClient::new("http://my.matrix.host:8008");
    client.set_access_token("secret-token".to_string());
    client.remove_access_token();
    assert!(client.get_access_token().is_none());
}

#[test]
fn setting_a_new_token_replaces_the_old_one() {
    let mut client = MatrixClient::new("http://my.matrix.host:8008");
    client.set_access_token("first".to_string());
    client.set_access_token("second".to_string());
    assert_eq!(client.get_access_token().as_deref(), Some("Bearer second"));
}
