use vault_client::auth::Auth;
use vault_client::body::{merge_pairs, request_body};
use vault_client::client::{read_secret, VaultClient};
use vault_client::error::{join_lines, server_error, vault_error, VaultError};
use vault_client::secret::freshness_window;

fn logged_in_client(renewable: bool, lease: u64, now: u64) -> VaultClient {
    let mut c = VaultClient::new("https://vault:8200/v1", "jwt-token");
    let _ = c.finish_login("app", Some("s.token".to_string()), Some(lease), Some(renewable), now);
    c
}

#[test]
fn auth_without_expiry_is_always_valid() {
    let a = Auth::new("t", None, 100);
    assert_eq!(a.client_token, "t");
    assert_eq!(a.expiry, None);
    assert!(a.is_valid(u64::MAX));
    assert!(!a.to_renew(u64::MAX));
}

#[test]
fn auth_expires_at_the_end_of_its_lease() {
    let a = Auth::new("t", Some(10), 100);
    assert_eq!(a.expiry, Some(110));
    assert!(a.is_valid(109));
    assert!(!a.to_renew(109));
    assert!(!a.is_valid(110));
    assert!(a.to_renew(110));
}

#[test]
fn auth_expiry_saturates() {
    let a = Auth::new("t", Some(u64::MAX), 5);
    assert_eq!(a.expiry, Some(u64::MAX));
}

#[test]
fn new_client_has_nothing_cached() {
    let c = VaultClient::new("https://vault:8200/v1", "jwt-token");
    assert_eq!(c.url, "https://vault:8200/v1");
    assert!(c.cached("app").is_none());
    assert!(!c.is_logged_at("app", 0));
    assert!(!c.is_logged("app"));
}

#[test]
fn non_expiring_record_stays_logged_in() {
    let c = logged_in_client(false, 30, 100);
    assert!(c.is_logged_at("app", 100));
    assert!(c.is_logged_at("app", u64::MAX));
    assert!(c.is_logged("app"));
    assert!(c.login_request("app", 1_000_000).is_none());
}

#[test]
fn expired_record_needs_one_login() {
    let mut c = logged_in_client(true, 10, 100);
    assert!(c.is_logged_at("app", 105));
    assert!(c.login_request("app", 105).is_none());
    assert!(!c.is_logged_at("app", 110));
    let q = c.login_request("app", 110).unwrap();
    assert_eq!(q.method, "POST");
    assert_eq!(q.uri, "https://vault:8200/v1/auth/kubernetes/login");
    assert_eq!(q.token, None);
    assert_eq!(q.body, r#"{"role": "app", "jwt": "jwt-token"}"#);
    let reply = r#"{"auth":{"client_token":"s.new","lease_duration":60,"renewable":true}}"#;
    let a = c.complete_login("app", 200, reply, 110).ok().unwrap();
    assert_eq!(a.client_token, "s.new");
    assert_eq!(a.expiry, Some(170));
    let cached = c.cached("app").unwrap();
    assert_eq!(cached.client_token, "s.new");
    assert_eq!(cached.expiry, Some(170));
    assert!(c.is_logged_at("app", 110));
}

#[test]
fn expired_record_is_not_logged_on_the_wall_clock() {
    let c = logged_in_client(true, 1, 1);
    assert!(!c.is_logged("app"));
}

#[test]
fn login_for_unknown_role_needs_a_request() {
    let c = logged_in_client(false, 0, 0);
    assert!(c.login_request("other", 0).is_some());
}

#[test]
fn non_renewable_login_never_expires() {
    let mut c = VaultClient::new("http://v", "j");
    let reply = r#"{"auth":{"client_token":"s.x","lease_duration":500,"renewable":false}}"#;
    let a = c.complete_login("r", 200, reply, 7).ok().unwrap();
    assert_eq!(a.client_token, "s.x");
    assert_eq!(a.expiry, None);
    assert!(c.is_logged_at("r", u64::MAX));
}

#[test]
fn login_reply_without_members_takes_defaults() {
    let mut c = VaultClient::new("http://v", "j");
    let a = c.complete_login("r", 200, r#"{"auth":{}}"#, 7).ok().unwrap();
    assert_eq!(a.client_token, "");
    assert_eq!(a.expiry, None);
    let b = c
        .complete_login("r", 200, r#"{"auth":{"client_token":"t","renewable":true}}"#, 7)
        .ok()
        .unwrap();
    assert_eq!(b.expiry, Some(7));
    assert!(!c.is_logged_at("r", 7));
}

#[test]
fn login_replaces_the_previous_record() {
    let mut c = logged_in_client(false, 0, 0);
    let a = c.finish_login("app", Some("second".to_string()), Some(5), Some(true), 10);
    assert_eq!(a.expiry, Some(15));
    assert_eq!(c.cached("app").unwrap().client_token, "second");
}

#[test]
fn failed_login_surfaces_server_errors_and_keeps_cache() {
    let mut c = logged_in_client(true, 10, 100);
    let r = c.complete_login("app", 403, r#"{"errors":["a","b"]}"#, 200);
    match r {
        Err(VaultError::Server(status, message)) => {
            assert_eq!(status, 403);
            assert_eq!(message, "a\nb");
        }
        _ => panic!("expected a server error"),
    }
    let cached = c.cached("app").unwrap();
    assert_eq!(cached.client_token, "s.token");
    assert_eq!(cached.expiry, Some(110));
}

#[test]
fn unparsable_login_reply_is_a_parse_error() {
    let mut c = VaultClient::new("http://v", "j");
    assert!(matches!(c.complete_login("r", 200, "not json", 0), Err(VaultError::Parse(_))));
    assert!(c.cached("r").is_none());
    assert!(matches!(c.complete_login("r", 500, "{}", 0), Err(VaultError::Parse(_))));
    assert!(c.cached("r").is_none());
}

#[test]
fn secret_request_without_login_is_refused() {
    let c = VaultClient::new("http://v", "j");
    assert!(matches!(
        c.secret_request("app", "GET", "secret/data/x", None),
        Err(VaultError::NotLogged)
    ));
}

#[test]
fn secret_request_carries_token_and_body() {
    let c = logged_in_client(false, 0, 0);
    let q = c.secret_request("app", "GET", "secret/data/x", None).ok().unwrap();
    assert_eq!(q.method, "GET");
    assert_eq!(q.uri, "https://vault:8200/v1/secret/data/x");
    assert_eq!(q.token, Some("s.token".to_string()));
    assert_eq!(q.body, "null");
    let kw = vec![("name", "db"), ("ttl", "1h")];
    let q = c.secret_request("app", "POST", "database/creds", Some(&kw)).ok().unwrap();
    assert_eq!(q.method, "POST");
    assert_eq!(q.body, r#"{"name":"db","ttl":"1h"}"#);
}

#[test]
fn secret_request_ignores_expiry() {
    let c = logged_in_client(true, 1, 1);
    assert!(c.secret_request("app", "GET", "p", None).is_ok());
}

#[test]
fn repeated_key_keeps_last_value() {
    let kw = vec![("k1", "v1"), ("k1", "v2")];
    assert_eq!(request_body(Some(&kw)), r#"{"k1":"v2"}"#);
}

#[test]
fn merge_keeps_first_place_and_last_value() {
    let kw = vec![("b", "1"), ("a", "2"), ("b", "3")];
    let m = merge_pairs(&kw);
    assert_eq!(m, vec![("b".to_string(), "3".to_string()), ("a".to_string(), "2".to_string())]);
    assert_eq!(request_body(Some(&kw)), r#"{"a":"2","b":"3"}"#);
    assert_eq!(request_body(Some(&vec![])), "{}");
    assert_eq!(request_body(None), "null");
}

#[test]
fn freshness_is_two_thirds_of_lease() {
    assert_eq!(freshness_window(Some(90)), Some(60));
    assert_eq!(freshness_window(Some(0)), None);
    assert_eq!(freshness_window(None), None);
    assert_eq!(freshness_window(Some(1)), Some(0));
    assert_eq!(freshness_window(Some(100)), Some(66));
    assert_eq!(freshness_window(Some(u64::MAX)), Some(12297829382473034410));
}

#[test]
fn secret_reply_gives_data_and_freshness() {
    let body = r#"{"lease_duration":90,"data":{"password":"p"},"metadata":{"v":1}}"#;
    let s = read_secret(200, body).ok().unwrap();
    assert_eq!(s.freshness_window, Some(60));
    let expected: serde_json::Value = serde_json::from_str(r#"{"password":"p"}"#).unwrap();
    assert_eq!(s.data, expected);
}

#[test]
fn secret_reply_without_lease_has_no_freshness() {
    let s = read_secret(200, r#"{"data":[1,2]}"#).ok().unwrap();
    assert_eq!(s.freshness_window, None);
    let s = read_secret(200, r#"{"lease_duration":0,"data":null}"#).ok().unwrap();
    assert_eq!(s.freshness_window, None);
    assert!(s.data.is_null());
}

#[test]
fn failed_secret_reply_surfaces_server_errors() {
    match read_secret(404, r#"{"errors":["a","b"]}"#) {
        Err(VaultError::Server(status, message)) => {
            assert_eq!(status, 404);
            assert_eq!(message, "a\nb");
        }
        _ => panic!("expected a server error"),
    }
    assert!(matches!(read_secret(200, "{"), Err(VaultError::Parse(_))));
}

#[test]
fn error_lists_join_by_lines() {
    assert_eq!(join_lines(&vec![]), "");
    assert_eq!(join_lines(&vec!["only".to_string()]), "only");
    assert_eq!(join_lines(&vec!["a".to_string(), "b".to_string(), "c".to_string()]), "a\nb\nc");
    assert!(matches!(vault_error(503, &vec!["x".to_string()]), VaultError::Server(503, m) if m == "x"));
    assert!(matches!(server_error(400, r#"{"errors":"nope"}"#), VaultError::Parse(_)));
    assert!(matches!(server_error(400, r#"{"errors":[]}"#), VaultError::Server(400, m) if m.is_empty()));
}

#[test]
fn login_reply_with_mistyped_members_takes_defaults() {
    let mut c = VaultClient::new("http://v", "j");
    let reply = r#"{"auth":{"client_token":5,"lease_duration":"60","renewable":true}}"#;
    let a = c.complete_login("r", 200, reply, 40).ok().unwrap();
    assert_eq!(a.client_token, "");
    assert_eq!(a.expiry, Some(40));
}

#[test]
fn secret_reply_with_mistyped_lease_has_no_freshness() {
    let s = read_secret(200, r#"{"lease_duration":"90","data":{"a":1}}"#).ok().unwrap();
    assert_eq!(s.freshness_window, None);
    let s = read_secret(200, r#"{"lease_duration":90}"#).ok().unwrap();
    assert_eq!(s.freshness_window, Some(60));
    assert!(s.data.is_null());
}

#[test]
fn error_reply_without_message_list_is_a_parse_error() {
    let mut c = logged_in_client(false, 0, 0);
    assert!(matches!(c.complete_login("app", 401, r#"{"errors":[1]}"#, 0), Err(VaultError::Parse(_))));
    assert!(matches!(read_secret(403, "oops"), Err(VaultError::Parse(_))));
    assert_eq!(c.cached("app").unwrap().client_token, "s.token");
}
