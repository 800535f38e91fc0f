use neumodiag_cli::client::{ApiClient, ApiError, AuthResponse, HttpOutcome};
use neumodiag_cli::flows::{centre_padding, classify_login_failure, find_project_dir, menu_items, LoginFailure, MenuChoice};
use neumodiag_cli::jwt::{extract_name_from_jwt, jwt_payload_text, name_from_payload};

fn reply(status: u16, body: &str) -> HttpOutcome {
    HttpOutcome::Reply { status, body: body.to_string() }
}

fn auth_response(token: &str) -> AuthResponse {
    AuthResponse {
        nombre: "Ana".to_string(),
        token: token.to_string(),
        rol: "paciente".to_string(),
        user_id: serde_json::Value::from(7),
        correo: "a@b.com".to_string(),
    }
}

#[test]
fn from_env_uses_override_or_default() {
    assert_eq!(ApiClient::from_env(None).base_url, "http://localhost:8080");
    assert_eq!(ApiClient::from_env(Some("http://x:1".to_string())).base_url, "http://x:1");
    assert!(!ApiClient::from_env(None).has_token());
}

#[test]
fn requests_go_under_base_url() {
    let mut api = ApiClient::from_env(Some("http://h:9".to_string()));
    api.set_token("t");
    let r = api.register_request();
    assert_eq!(r.url, "http://h:9/register");
    assert_eq!(r.authorization, None);
    let r = api.login_request();
    assert_eq!(r.url, "http://h:9/auth");
    assert_eq!(r.authorization, None);
    assert_eq!(api.upload_profile_picture().url, "http://h:9/upload");
}

#[test]
fn token_set_and_clear() {
    let mut api = ApiClient::from_env(None);
    api.set_token("t1");
    assert!(api.has_token());
    assert_eq!(api.auth_headers().as_deref(), Some("Bearer t1"));
    api.clear_token();
    assert!(!api.has_token());
    assert_eq!(api.auth_headers(), None);
}

#[test]
fn upload_without_token_omits_authorization() {
    let api = ApiClient::from_env(None);
    let req = api.upload_profile_picture();
    assert_eq!(req.url, "http://localhost:8080/upload");
    assert_eq!(req.authorization, None);
    // the upload is still described and its reply mapped
    assert_eq!(api.upload_result(reply(200, "")).unwrap(), "Upload OK");
}

#[test]
fn upload_with_token_sends_bearer() {
    let mut api = ApiClient::from_env(None);
    api.set_token("abc.def");
    assert_eq!(api.upload_profile_picture().authorization.as_deref(), Some("Bearer abc.def"));
}

#[test]
fn upload_failure_is_remote_error() {
    let api = ApiClient::from_env(None);
    match api.upload_result(reply(401, "no token")) {
        Err(ApiError::Remote { status, body }) => {
            assert_eq!(status, 401);
            assert_eq!(body, "no token");
        }
        other => panic!("unexpected {:?}", other),
    }
}

#[test]
fn register_created_is_success() {
    let api = ApiClient::from_env(None);
    assert_eq!(api.register(reply(201, "{\"id\":1}")).unwrap(), "Registered");
    assert!(!api.has_token());
}

#[test]
fn register_failure_kinds() {
    let api = ApiClient::from_env(None);
    assert!(matches!(api.register(reply(409, "exists")), Err(ApiError::Remote { status: 409, .. })));
    assert!(matches!(api.register(reply(199, "")), Err(ApiError::Remote { status: 199, .. })));
    assert!(matches!(api.register(reply(300, "")), Err(ApiError::Remote { status: 300, .. })));
    assert!(matches!(api.register(reply(299, "")), Ok(_)));
    let r = api.register(HttpOutcome::Failed { message: "refused".to_string() });
    assert!(matches!(r, Err(ApiError::Transport { message }) if message == "refused"));
}

#[test]
fn login_success_returns_token() {
    let api = ApiClient::from_env(None);
    let r = api.login(reply(200, "{}"), Ok(auth_response("jwt")));
    assert_eq!(r.unwrap().token, "jwt");
}

#[test]
fn login_decode_failure() {
    let api = ApiClient::from_env(None);
    let r = api.login(reply(200, "oops"), Err("expected value".to_string()));
    assert!(matches!(r, Err(ApiError::Decode { message }) if message == "expected value"));
}

#[test]
fn login_unknown_user_is_invalid_credentials() {
    let api = ApiClient::from_env(None);
    let body = "{\"error\":\"usuario no encontrado\"}";
    let r = api.login(reply(401, body), Err("not decoded".to_string()));
    match r {
        Err(ApiError::Remote { status, body: b }) => {
            assert_eq!(status, 401);
            let text = format!("Login failed: {} Unauthorized - {}", status, b);
            assert_eq!(classify_login_failure(&text), LoginFailure::InvalidCredentials);
        }
        other => panic!("unexpected {:?}", other),
    }
}

#[test]
fn login_failure_classification() {
    assert_eq!(classify_login_failure("crypto/BCRYPT: mismatch"), LoginFailure::InvalidCredentials);
    assert_eq!(classify_login_failure("HashedPassword wrong"), LoginFailure::InvalidCredentials);
    assert_eq!(classify_login_failure("sql: No Rows in result set"), LoginFailure::InvalidCredentials);
    assert_eq!(classify_login_failure("Invalid input"), LoginFailure::InvalidCredentials);
    assert_eq!(classify_login_failure("400 Bad Request - x"), LoginFailure::InvalidCredentials);
    assert_eq!(classify_login_failure("500 Internal Server Error - boom"), LoginFailure::Other);
    assert_eq!(classify_login_failure(""), LoginFailure::Other);
}

#[test]
fn menu_depends_on_auth_state() {
    assert_eq!(menu_items(false), vec![MenuChoice::Register, MenuChoice::Login, MenuChoice::Exit]);
    assert_eq!(menu_items(true), vec![MenuChoice::UploadPicture, MenuChoice::Logout, MenuChoice::Exit]);
}

#[test]
fn project_dir_search_order() {
    let cands = vec!["/a/b/c".to_string(), "/a/b".to_string(), "/a".to_string()];
    assert_eq!(
        find_project_dir(Some("/env".to_string()), &cands, &vec![false, true, true], Some("/cwd".to_string())),
        "/env"
    );
    assert_eq!(find_project_dir(None, &cands, &vec![false, true, true], Some("/cwd".to_string())), "/a/b");
    assert_eq!(find_project_dir(None, &cands, &vec![false, false, false], Some("/cwd".to_string())), "/cwd");
    assert_eq!(find_project_dir(None, &vec![], &vec![], None), ".");
}

#[test]
fn centre_padding_values() {
    assert_eq!(centre_padding(80, 20), 30);
    assert_eq!(centre_padding(80, 21), 29);
    assert_eq!(centre_padding(80, 80), 0);
    assert_eq!(centre_padding(10, 80), 0);
}

#[test]
fn jwt_payload_is_normalised_and_padded() {
    assert_eq!(jwt_payload_text("h.-__-Pg.s").as_deref(), Some("+//+Pg=="));
    assert_eq!(jwt_payload_text("h.abcd.s").as_deref(), Some("abcd"));
    assert_eq!(jwt_payload_text("h.abc.s").as_deref(), Some("abc="));
    assert_eq!(jwt_payload_text("h..s").as_deref(), Some(""));
    assert_eq!(jwt_payload_text("h.abc"), None);
    assert_eq!(jwt_payload_text("a.b.c.d"), None);
}

#[test]
fn jwt_name_is_extracted() {
    let token = "eyJhbGciOiJIUzI1NiJ9.eyJub21icmVfY29tcGxldG8iOiJBbmEgTWFyw61hIn0.sig";
    assert_eq!(extract_name_from_jwt(token).as_deref(), Some("Ana María"));
    assert_eq!(extract_name_from_jwt("not-a-token"), None);
    assert_eq!(extract_name_from_jwt("a.!!!.c"), None);
}

#[test]
fn name_from_payload_reads_field() {
    assert_eq!(name_from_payload(br#"{"nombre_completo":"Luis"}"#).as_deref(), Some("Luis"));
    assert_eq!(name_from_payload(br#"{"nombre":"Luis"}"#), None);
    assert_eq!(name_from_payload(br#"{"nombre_completo":3}"#), None);
}
