use keycrate::{
    AuthenticateOptions, LicenseAuthClient, Prepared, RegisterOptions, MISSING_CREDENTIALS,
    MISSING_LICENSE, MISSING_PASSWORD, MISSING_USERNAME,
};
use serde_json::Value;

fn client() -> LicenseAuthClient {
    LicenseAuthClient::new("https://api.example.com/", "app1")
}

fn some(s: &str) -> Option<String> {
    Some(s.to_string())
}

fn expect_local(p: Prepared, message: &str) {
    match p {
        Prepared::Local(r) => {
            assert!(!r.success);
            assert_eq!(r.message, message);
            assert!(r.data.is_none());
        }
        Prepared::Post(req) => panic!("expected a local reply, got a post to {}", req.url),
    }
}

fn expect_post(p: Prepared, url: &str, fields: &[(&str, &str)]) {
    match p {
        Prepared::Post(req) => {
            assert_eq!(req.url, url);
            assert_eq!(req.payload.len(), fields.len());
            for (k, v) in fields {
                assert_eq!(req.payload.get(*k), Some(&Value::String(v.to_string())), "key {}", k);
            }
        }
        Prepared::Local(r) => panic!("expected a post, got a local reply: {}", r.message),
    }
}

#[test]
fn new_strips_one_trailing_slash() {
    let c = LicenseAuthClient::new("https://api.example.com/", "app1");
    assert_eq!(c.host(), "https://api.example.com");
    assert_eq!(c.app_id(), "app1");
}

#[test]
fn new_keeps_host_without_trailing_slash() {
    let c = LicenseAuthClient::new("https://api.example.com", "app1");
    assert_eq!(c.host(), "https://api.example.com");
}

#[test]
fn new_strips_only_one_slash() {
    let c = LicenseAuthClient::new("https://api.example.com//", "app1");
    assert_eq!(c.host(), "https://api.example.com/");
}

#[test]
fn new_accepts_empty_host() {
    assert_eq!(LicenseAuthClient::new("", "a").host(), "");
    assert_eq!(LicenseAuthClient::new("/", "a").host(), "");
}

#[test]
fn new_strips_slash_after_non_ascii() {
    let c = LicenseAuthClient::new("https://bücher.example/", "app1");
    assert_eq!(c.host(), "https://bücher.example");
}

#[test]
fn authenticate_without_credentials_is_local() {
    expect_local(client().prepare_authenticate(AuthenticateOptions::default()), MISSING_CREDENTIALS);
}

#[test]
fn authenticate_with_username_only_is_local() {
    let opts = AuthenticateOptions { username: some("bob"), ..Default::default() };
    expect_local(client().prepare_authenticate(opts), MISSING_CREDENTIALS);
}

#[test]
fn authenticate_with_password_and_hwid_only_is_local() {
    let opts = AuthenticateOptions { password: some("pw"), hwid: some("hw"), ..Default::default() };
    expect_local(client().prepare_authenticate(opts), MISSING_CREDENTIALS);
}

#[test]
fn missing_credentials_message_text() {
    assert_eq!(MISSING_CREDENTIALS, "Either license key OR (username AND password) must be provided");
}

#[test]
fn authenticate_with_license_posts_to_auth() {
    let opts = AuthenticateOptions { license: some("KEY"), ..Default::default() };
    expect_post(
        client().prepare_authenticate(opts),
        "https://api.example.com/auth",
        &[("app_id", "app1"), ("license", "KEY")],
    );
}

#[test]
fn authenticate_with_username_and_password_posts_them() {
    let opts = AuthenticateOptions {
        username: some("bob"),
        password: some("pw"),
        hwid: some("hw-1"),
        ..Default::default()
    };
    expect_post(
        client().prepare_authenticate(opts),
        "https://api.example.com/auth",
        &[("app_id", "app1"), ("username", "bob"), ("password", "pw"), ("hwid", "hw-1")],
    );
}

#[test]
fn authenticate_with_all_options_posts_all() {
    let opts = AuthenticateOptions {
        license: some("KEY"),
        username: some("bob"),
        password: some("pw"),
        hwid: some("hw"),
    };
    expect_post(
        client().prepare_authenticate(opts),
        "https://api.example.com/auth",
        &[("app_id", "app1"), ("license", "KEY"), ("username", "bob"), ("password", "pw"), ("hwid", "hw")],
    );
}

#[test]
fn authenticate_with_empty_license_still_posts() {
    let opts = AuthenticateOptions { license: some(""), ..Default::default() };
    expect_post(
        client().prepare_authenticate(opts),
        "https://api.example.com/auth",
        &[("app_id", "app1"), ("license", "")],
    );
}

fn register_opts(license: &str, username: &str, password: &str) -> RegisterOptions {
    RegisterOptions {
        license: license.to_string(),
        username: username.to_string(),
        password: password.to_string(),
    }
}

#[test]
fn register_empty_license_is_local_whatever_else() {
    for (u, p) in [("", ""), ("bob", ""), ("", "pw"), ("bob", "pw")] {
        expect_local(client().prepare_register(register_opts("", u, p)), "license is required");
    }
    assert_eq!(MISSING_LICENSE, "license is required");
}

#[test]
fn register_empty_username_is_local() {
    expect_local(client().prepare_register(register_opts("KEY", "", "pw")), "username is required");
    expect_local(client().prepare_register(register_opts("KEY", "", "")), MISSING_USERNAME);
}

#[test]
fn register_empty_password_is_local() {
    expect_local(client().prepare_register(register_opts("KEY", "bob", "")), "password is required");
    assert_eq!(MISSING_PASSWORD, "password is required");
}

#[test]
fn register_complete_posts_all_four_keys() {
    expect_post(
        client().prepare_register(register_opts("KEY", "bob", "pw")),
        "https://api.example.com/register",
        &[("app_id", "app1"), ("license", "KEY"), ("username", "bob"), ("password", "pw")],
    );
}

#[test]
fn register_url_joins_host_literally() {
    let c = LicenseAuthClient::new("http://localhost:8080/api//", "x");
    match c.prepare_register(register_opts("L", "U", "P")) {
        Prepared::Post(req) => assert_eq!(req.url, "http://localhost:8080/api//register"),
        Prepared::Local(r) => panic!("unexpected local reply: {}", r.message),
    }
}

#[test]
fn new_builds_an_http_client() {
    assert!(client().http_client().is_some());
}
