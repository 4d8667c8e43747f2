use espocrm_rs::EspoApiClient;
use espocrm_rs::Method;
use espocrm_rs::Order;
use espocrm_rs::Params;
use espocrm_rs::ResolvedAuth;

const URL: &str = "foo";

#[test]
fn url() {
    let client = EspoApiClient::new(URL);
    assert_eq!(client.url, "foo".to_string());
}

#[test]
fn username() {
    let client = EspoApiClient::new(URL).set_username("bar").build();

    assert_eq!(Some("bar".to_string()), client.username);
}

#[test]
fn password() {
    let client = EspoApiClient::new(URL).set_password("bar").build();

    assert_eq!(Some("bar".to_string()), client.password);
}

#[test]
fn api_key() {
    let client = EspoApiClient::new(URL).set_api_key("bar").build();

    assert_eq!(Some("bar".to_string()), client.api_key);
}

#[test]
fn secret_key() {
    let client = EspoApiClient::new(URL).set_secret_key("bar").build();

    assert_eq!(Some("bar".to_string()), client.secret_key);
}

#[test]
fn full() {
    let client = EspoApiClient::new(URL)
        .set_username("username")
        .set_password("password")
        .set_api_key("api_key")
        .set_secret_key("secret_key")
        .build();

    assert_eq!(Some("username".to_string()), client.username);
    assert_eq!(Some("password".to_string()), client.password);
    assert_eq!(Some("api_key".to_string()), client.api_key);
    assert_eq!(Some("secret_key".to_string()), client.secret_key);
    assert_eq!("foo".to_string(), client.url);
}

#[test]
fn modify_url() {
    let client = EspoApiClient::new(URL).set_url("bar").build();

    assert_eq!("bar".to_string(), client.url)
}

#[test]
fn normalize_url() {
    let client = EspoApiClient::new(URL);
    let normalized_url = client.normalize_url("Contact");

    assert_eq!(format!("{}{}Contact", URL, client.url_path), normalized_url)
}

#[test]
fn set_url_strips_one_trailing_slash() {
    let client = EspoApiClient::new(URL).set_url("https://example.com/").build();
    assert_eq!("https://example.com".to_string(), client.url);

    let unchanged = EspoApiClient::new(URL).set_url("https://example.com").build();
    assert_eq!("https://example.com".to_string(), unchanged.url);
}

#[test]
fn normalize_url_appends_api_prefix_and_action() {
    let client = EspoApiClient::new("https://espocrm.example.com");
    assert_eq!(
        "https://espocrm.example.com/api/v1/Contact".to_string(),
        client.normalize_url("Contact")
    );
}

#[test]
fn auth_precedence_basic_wins_over_keys() {
    let client = EspoApiClient::new(URL)
        .set_username("user")
        .set_password("pass")
        .set_api_key("key")
        .set_secret_key("secret")
        .build();
    let auth = client.resolve_auth(Method::Get, "Contact");
    assert!(matches!(auth, ResolvedAuth::Basic(_)));
}

#[test]
fn auth_precedence_keys_give_hmac() {
    let client = EspoApiClient::new(URL)
        .set_api_key("key")
        .set_secret_key("secret")
        .build();
    let auth = client.resolve_auth(Method::Get, "Contact");
    assert!(matches!(auth, ResolvedAuth::Hmac(_)));
}

#[test]
fn auth_precedence_api_key_alone() {
    let client = EspoApiClient::new(URL).set_api_key("key").build();
    let auth = client.resolve_auth(Method::Get, "Contact");
    assert_eq!(ResolvedAuth::ApiKey("key".to_string()), auth);
}

#[test]
fn auth_precedence_no_credentials() {
    let client = EspoApiClient::new(URL);
    let auth = client.resolve_auth(Method::Get, "Contact");
    assert_eq!(ResolvedAuth::NoAuth, auth);
}

#[test]
fn basic_credential_is_base64_of_user_colon_password() {
    let client = EspoApiClient::new(URL)
        .set_username("foo")
        .set_password("bar")
        .build();
    let auth = client.resolve_auth(Method::Get, "Contact");
    assert_eq!(ResolvedAuth::Basic("Zm9vOmJhcg==".to_string()), auth);
}

#[test]
fn hmac_header_shape_and_determinism() {
    let make = || {
        EspoApiClient::new(URL)
            .set_api_key("key")
            .set_secret_key("secret")
            .build()
    };
    let a = make().resolve_auth(Method::Get, "Contact");
    let b = make().resolve_auth(Method::Get, "Contact");
    assert_eq!(a, b);

    let header = match a {
        ResolvedAuth::Hmac(h) => h,
        other => panic!("expected an HMAC artifact, got {:?}", other),
    };
    // base64("key") : base64(32-byte MAC)
    let parts: Vec<&str> = header.split(':').collect();
    assert_eq!(2, parts.len());
    assert_eq!("a2V5", parts[0]);
    assert_eq!(44, parts[1].len());
}

#[test]
fn hmac_signature_changes_with_each_input() {
    let client = EspoApiClient::new(URL)
        .set_api_key("key")
        .set_secret_key("secret")
        .build();
    let base = client.resolve_auth(Method::Get, "Contact");

    let other_method = client.resolve_auth(Method::Post, "Contact");
    assert_ne!(base, other_method);

    let other_action = client.resolve_auth(Method::Get, "Account");
    assert_ne!(base, other_action);

    let other_secret = EspoApiClient::new(URL)
        .set_api_key("key")
        .set_secret_key("another")
        .build()
        .resolve_auth(Method::Get, "Contact");
    assert_ne!(base, other_secret);
}

#[test]
fn hmac_artifact_ignores_base_url() {
    let a = EspoApiClient::new("https://one.example.com")
        .set_api_key("key")
        .set_secret_key("secret")
        .build()
        .resolve_auth(Method::Put, "Contact");
    let b = EspoApiClient::new("https://two.example.com")
        .set_api_key("key")
        .set_secret_key("secret")
        .build()
        .resolve_auth(Method::Put, "Contact");
    assert_eq!(a, b);
}

#[test]
fn method_verbs_are_upper_case() {
    assert_eq!("GET", Method::Get.verb());
    assert_eq!("POST", Method::Post.verb());
    assert_eq!("PUT", Method::Put.verb());
    assert_eq!("DELETE", Method::Delete.verb());
}

#[test]
fn prepare_request_appends_query_for_get() {
    let client = EspoApiClient::new("https://espocrm.example.com");
    let params = Params::new().set_offset(0).set_order(Order::Desc).build();
    let prepared = client.prepare_request(Method::Get, "Contact", Some(params));
    assert!(prepared.url.starts_with("https://espocrm.example.com/api/v1/Contact?"));
    assert!(prepared.url.contains("offset=0"));
    assert!(prepared.url.contains("order=desc"));
}

#[test]
fn prepare_request_ignores_params_for_post() {
    let client = EspoApiClient::new("https://espocrm.example.com");
    let params = Params::new().set_offset(0).build();
    let prepared = client.prepare_request(Method::Post, "Contact", Some(params));
    assert_eq!(
        "https://espocrm.example.com/api/v1/Contact".to_string(),
        prepared.url
    );
}

#[test]
fn basic_credential_base64_padding_cases() {
    // one tail byte: base64(":") == "Og=="
    let auth = EspoApiClient::new(URL)
        .set_username("")
        .set_password("")
        .build()
        .resolve_auth(Method::Get, "Contact");
    assert_eq!(ResolvedAuth::Basic("Og==".to_string()), auth);

    // two tail bytes: base64("a:") == "YTo="
    let auth = EspoApiClient::new(URL)
        .set_username("a")
        .set_password("")
        .build()
        .resolve_auth(Method::Get, "Contact");
    assert_eq!(ResolvedAuth::Basic("YTo=".to_string()), auth);

    // three-byte groups, no padding: base64("ab:def") == "YWI6ZGVm"
    let auth = EspoApiClient::new(URL)
        .set_username("ab")
        .set_password("def")
        .build()
        .resolve_auth(Method::Get, "Contact");
    assert_eq!(ResolvedAuth::Basic("YWI6ZGVm".to_string()), auth);
}
