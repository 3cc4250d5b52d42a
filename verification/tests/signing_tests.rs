use proprion::exoscale::{Client, ExoscaleError};
use proprion::http::Method;

fn client() -> Client {
    Client::new("EXOkey".to_string(), "s3cr3t".to_string(), "de-fra-1")
}

fn signature_of(auth: &str) -> String {
    auth.split("signature=").nth(1).unwrap().to_string()
}

#[test]
fn sign_request_gives_the_documented_credential() {
    let auth = client().sign_request("GET", "/v2/iam-role", "", 1_700_000_000).unwrap();
    assert_eq!(
        auth,
        "EXO2-HMAC-SHA256 credential=EXOkey,expires=1700000600,signature=pegg6OYdPNwks/GFbtC7Xk28tyixXVVxn+h3czgMiZQ="
    );
}

#[test]
fn sign_request_covers_the_body() {
    let body = "{\"name\":\"k\",\"role-id\":\"r\"}";
    let auth = client().sign_request("POST", "/v2/api-key", body, 0).unwrap();
    assert_eq!(
        auth,
        "EXO2-HMAC-SHA256 credential=EXOkey,expires=600,signature=KoDwf+ijt8aggTz5aULVwcRHoUxaHw4QFvDXKP08ExU="
    );
}

#[test]
fn sign_request_takes_text_outside_ascii() {
    let c = Client::new("k".to_string(), "clé-secrète".to_string(), "ch-gva-2");
    let auth = c.sign_request("DELETE", "/v2/iam-role/é", "", 1).unwrap();
    assert_eq!(
        auth,
        "EXO2-HMAC-SHA256 credential=k,expires=601,signature=/YlI7FHSBEHnh8lXNPds8+PEfxsBYPgcnvWf5yRp9GE="
    );
}

#[test]
fn sign_request_is_deterministic_for_a_fixed_clock() {
    let a = client().sign_request("GET", "/v2/api-key", "", 42).unwrap();
    let b = client().sign_request("GET", "/v2/api-key", "", 42).unwrap();
    assert_eq!(a, b);
}

#[test]
fn sign_request_changes_with_the_clock() {
    let a = client().sign_request("GET", "/v2/api-key", "", 42).unwrap();
    let b = client().sign_request("GET", "/v2/api-key", "", 43).unwrap();
    assert_ne!(a, b);
    assert!(a.contains(",expires=642,"));
    assert!(b.contains(",expires=643,"));
}

#[test]
fn sign_request_changes_with_method_path_and_body() {
    let base = signature_of(&client().sign_request("GET", "/v2/api-key", "", 42).unwrap());
    let method = signature_of(&client().sign_request("DELETE", "/v2/api-key", "", 42).unwrap());
    let path = signature_of(&client().sign_request("GET", "/v2/iam-role", "", 42).unwrap());
    let body = signature_of(&client().sign_request("GET", "/v2/api-key", "{}", 42).unwrap());
    assert_ne!(base, method);
    assert_ne!(base, path);
    assert_ne!(base, body);
    assert_ne!(method, path);
}

#[test]
fn sign_request_changes_with_the_secret() {
    let other = Client::new("EXOkey".to_string(), "other".to_string(), "de-fra-1");
    let a = client().sign_request("GET", "/v2/api-key", "", 42).unwrap();
    let b = other.sign_request("GET", "/v2/api-key", "", 42).unwrap();
    assert_ne!(signature_of(&a), signature_of(&b));
}

#[test]
fn signature_is_padded_base64_of_32_bytes() {
    let auth = client().sign_request("GET", "/", "", 7).unwrap();
    let sig = signature_of(&auth);
    assert_eq!(sig.len(), 44);
    assert!(sig.ends_with('='));
    assert!(!sig.ends_with("=="));
}

#[test]
fn request_carries_credential_and_content_type() {
    let request = client().request(Method::Get, "/v2/iam-role", None, 1_700_000_000).unwrap();
    assert_eq!(request.method, Method::Get);
    assert_eq!(request.url, "https://api-de-fra-1.exoscale.com/v2/iam-role");
    assert_eq!(request.body, None);
    assert_eq!(request.headers.len(), 2);
    assert_eq!(request.headers[0].name, "authorization");
    assert_eq!(
        request.headers[0].value,
        "EXO2-HMAC-SHA256 credential=EXOkey,expires=1700000600,signature=pegg6OYdPNwks/GFbtC7Xk28tyixXVVxn+h3czgMiZQ="
    );
    assert_eq!(request.headers[1].name, "content-type");
    assert_eq!(request.headers[1].value, "application/json");
}

#[test]
fn operations_go_to_their_paths() {
    let c = client();
    let body = "{\"name\":\"k\",\"role-id\":\"r\"}".to_string();
    let create_key = c.create_api_key(body.clone(), 0).unwrap();
    assert_eq!(create_key.method, Method::Post);
    assert_eq!(create_key.url, "https://api-de-fra-1.exoscale.com/v2/api-key");
    assert_eq!(create_key.body, Some(body));
    assert_eq!(
        create_key.headers[0].value,
        "EXO2-HMAC-SHA256 credential=EXOkey,expires=600,signature=KoDwf+ijt8aggTz5aULVwcRHoUxaHw4QFvDXKP08ExU="
    );

    let create_role = c.create_role("{}".to_string(), 5).unwrap();
    assert_eq!(create_role.method, Method::Post);
    assert_eq!(create_role.url, "https://api-de-fra-1.exoscale.com/v2/iam-role");
    assert_eq!(
        create_role.headers[0].value,
        c.sign_request("POST", "/v2/iam-role", "{}", 5).unwrap()
    );

    let list_roles = c.list_roles(5).unwrap();
    assert_eq!(list_roles.method, Method::Get);
    assert_eq!(list_roles.url, "https://api-de-fra-1.exoscale.com/v2/iam-role");

    let delete_role = c.delete_role("r-1", 5).unwrap();
    assert_eq!(delete_role.method, Method::Delete);
    assert_eq!(delete_role.url, "https://api-de-fra-1.exoscale.com/v2/iam-role/r-1");
    assert_eq!(
        delete_role.headers[0].value,
        c.sign_request("DELETE", "/v2/iam-role/r-1", "", 5).unwrap()
    );

    let list_keys = c.list_api_keys(5).unwrap();
    assert_eq!(list_keys.method, Method::Get);
    assert_eq!(list_keys.url, "https://api-de-fra-1.exoscale.com/v2/api-key");

    let delete_key = c.delete_api_key("EXOabc", 5).unwrap();
    assert_eq!(delete_key.method, Method::Delete);
    assert_eq!(delete_key.url, "https://api-de-fra-1.exoscale.com/v2/api-key/EXOabc");
    assert_eq!(delete_key.body, None);
}

#[test]
fn signing_never_reports_a_signature_error() {
    let empty = Client::new(String::new(), String::new(), "z");
    let long = Client::new("k".to_string(), "x".repeat(1000), "z");
    assert!(!matches!(empty.sign_request("GET", "/", "", 0), Err(ExoscaleError::Signature(_))));
    assert!(long.sign_request("GET", "/", "", 0).is_ok());
}

#[test]
fn signing_time_is_the_present() {
    let now = proprion::exoscale::signing_time().unwrap();
    // Later than the start of 2020.
    assert!(now > 1_577_836_800);
    let auth = client().sign_request("GET", "/v2/iam-role", "", now).unwrap();
    assert!(auth.contains(&format!(",expires={},", now as u128 + 600)));
}

#[test]
fn the_clock_does_not_run_backwards_here() {
    let a = proprion::clock::unix_seconds().unwrap();
    let b = proprion::clock::unix_seconds().unwrap();
    assert!(b >= a);
    assert!(b - a < 60);
}

#[test]
fn signing_time_follows_the_reading_of_the_clock() {
    use_signing_time_from(Ok(0), Ok(0));
    use_signing_time_from(Ok(1_700_000_000), Ok(1_700_000_000));
    use_signing_time_from(Ok(u64::MAX), Ok(u64::MAX));
    use_signing_time_from(
        Err("second time provided was later than self".to_string()),
        Err("second time provided was later than self".to_string()),
    );
}

fn use_signing_time_from(reading: Result<u64, String>, expected: Result<u64, String>) {
    let got = match proprion::exoscale::signing_time_from(reading) {
        Ok(now) => Ok(now),
        Err(ExoscaleError::Signature(m)) => Err(m),
        Err(other) => panic!("unexpected: {:?}", other),
    };
    assert_eq!(got, expected);
}

#[test]
fn sign_request_at_the_last_second_of_the_clock() {
    let auth = client().sign_request("GET", "/v2/iam-role", "", u64::MAX).unwrap();
    assert_eq!(
        auth,
        "EXO2-HMAC-SHA256 credential=EXOkey,expires=18446744073709552215,signature=mxro7hrkchLFmNzPcX+iQJFWjJIPhCt3emnKha9ID/M="
    );
}

#[test]
fn signatures_have_44_characters() {
    for (method, path, body, now) in [
        ("GET", "/", "", 0u64),
        ("POST", "/v2/api-key", "{\"name\":\"k\"}", 1_700_000_000),
        ("DELETE", "/v2/iam-role/x", "", u64::MAX),
    ] {
        let auth = client().sign_request(method, path, body, now).unwrap();
        let signature = signature_of(&auth);
        assert_eq!(signature.chars().count(), 44);
        assert_eq!(signature.chars().nth(43), Some('='));
        assert_ne!(signature.chars().nth(42), Some('='));
    }
}
