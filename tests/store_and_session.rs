use neumodiag_cli::client::ApiClient;
use neumodiag_cli::session::{graceful_exit, login_succeeded, logout, startup, StoreOp};
use neumodiag_cli::store::TokenMeta;

fn client() -> ApiClient {
    ApiClient::from_env(Some("http://api.test".to_string()))
}

#[test]
fn fresh_meta_is_not_clean() {
    let m = TokenMeta::fresh(true);
    assert!(m.persist);
    assert!(!m.clean_exit);
}

#[test]
fn meta_encodes_as_json_object() {
    let m = TokenMeta { persist: true, clean_exit: false };
    assert_eq!(m.encode(), br#"{"clean_exit":false,"persist":true}"#.to_vec());
    let m = TokenMeta { persist: false, clean_exit: true };
    assert_eq!(m.encode(), br#"{"clean_exit":true,"persist":false}"#.to_vec());
}

#[test]
fn meta_round_trips_through_bytes() {
    for persist in [false, true] {
        for clean_exit in [false, true] {
            let m = TokenMeta { persist, clean_exit };
            assert_eq!(TokenMeta::decode(&m.encode()), m);
        }
    }
}

#[test]
fn meta_decodes_other_key_order_and_spacing() {
    let m = TokenMeta::decode(br#"{ "persist": true, "clean_exit": true }"#);
    assert_eq!(m, TokenMeta { persist: true, clean_exit: true });
}

#[test]
fn malformed_meta_reads_as_false() {
    assert_eq!(TokenMeta::decode(b"not json"), TokenMeta { persist: false, clean_exit: false });
    assert_eq!(
        TokenMeta::decode(br#"{"persist":"yes","clean_exit":1}"#),
        TokenMeta { persist: false, clean_exit: false }
    );
    assert_eq!(TokenMeta::decode(b"[true]"), TokenMeta { persist: false, clean_exit: false });
}

#[test]
fn mark_clean_exit_preserves_persist() {
    let m = TokenMeta::merge_clean_exit(Some(TokenMeta { persist: true, clean_exit: false }), true);
    assert_eq!(m, TokenMeta { persist: true, clean_exit: true });
    let m = TokenMeta::merge_clean_exit(None, true);
    assert_eq!(m, TokenMeta { persist: false, clean_exit: true });
}

#[test]
fn set_clean_exit_meta_merges_stored_bytes() {
    let api = client();
    let stored = br#"{"clean_exit":false,"persist":true}"#.to_vec();
    let out = api.set_clean_exit_meta(Some(stored), true);
    assert_eq!(out, br#"{"clean_exit":true,"persist":true}"#.to_vec());
    let out = api.set_clean_exit_meta(None, false);
    assert_eq!(out, br#"{"clean_exit":false,"persist":false}"#.to_vec());
}

#[test]
fn set_clean_exit_meta_keeps_other_keys() {
    let api = client();
    let stored = br#"{"persist": true, "clean_exit": false, "device": "lab-2"}"#.to_vec();
    let out = api.set_clean_exit_meta(Some(stored), true);
    let v: serde_json::Value = serde_json::from_slice(&out).unwrap();
    assert_eq!(v["clean_exit"], serde_json::Value::Bool(true));
    assert_eq!(v["persist"], serde_json::Value::Bool(true));
    assert_eq!(v["device"], serde_json::Value::from("lab-2"));
    assert_eq!(TokenMeta::decode(&out), TokenMeta { persist: true, clean_exit: true });
}

#[test]
fn set_clean_exit_meta_keeps_non_boolean_persist() {
    let api = client();
    let out = api.set_clean_exit_meta(Some(br#"{"persist":"yes"}"#.to_vec()), true);
    let v: serde_json::Value = serde_json::from_slice(&out).unwrap();
    assert_eq!(v["persist"], serde_json::Value::from("yes"));
    assert_eq!(v["clean_exit"], serde_json::Value::Bool(true));
}

#[test]
fn set_clean_exit_meta_on_malformed_writes_fresh_record() {
    let api = client();
    let out = api.set_clean_exit_meta(Some(b"garbage".to_vec()), true);
    assert_eq!(out, br#"{"clean_exit":true,"persist":false}"#.to_vec());
}

#[test]
fn stored_form_is_recognised() {
    assert_eq!(
        TokenMeta::from_stored_form(br#"{"clean_exit":false,"persist":true}"#),
        Some(TokenMeta { persist: true, clean_exit: false })
    );
    assert_eq!(TokenMeta::from_stored_form(br#"{"persist":true,"clean_exit":false}"#), None);
}

#[test]
fn persist_writes_unclean_meta() {
    let api = client();
    assert_eq!(api.persist_token_to_project(true), br#"{"clean_exit":false,"persist":true}"#.to_vec());
    assert_eq!(api.persist_token_to_project(false), br#"{"clean_exit":false,"persist":false}"#.to_vec());
}

#[test]
fn load_token_meta_absent_and_present() {
    let api = client();
    assert_eq!(api.load_token_meta(None), None);
    assert_eq!(
        api.load_token_meta(Some(br#"{"clean_exit":true,"persist":true}"#.to_vec())),
        Some(TokenMeta { persist: true, clean_exit: true })
    );
}

#[test]
fn startup_restores_after_clean_exit_trimmed() {
    let mut api = client();
    let op = startup(
        &mut api,
        Some(TokenMeta { persist: true, clean_exit: true }),
        Some("  abc.def.ghi\n".to_string()),
    );
    assert_eq!(api.token.as_deref(), Some("abc.def.ghi"));
    assert!(matches!(op, StoreOp::MarkCleanExit { clean: false }));
}

#[test]
fn startup_after_crash_does_not_restore() {
    let mut api = client();
    let op = startup(
        &mut api,
        Some(TokenMeta { persist: true, clean_exit: false }),
        Some("abc".to_string()),
    );
    assert!(!api.has_token());
    assert!(matches!(op, StoreOp::MarkCleanExit { clean: false }));
}

#[test]
fn startup_without_meta_or_token_does_not_restore() {
    let mut api = client();
    startup(&mut api, None, Some("abc".to_string()));
    assert!(!api.has_token());
    startup(&mut api, Some(TokenMeta { persist: true, clean_exit: true }), None);
    assert!(!api.has_token());
}

/// Applies a store change to an in-memory pair of files.
fn apply(disk: &mut (Option<String>, Option<Vec<u8>>), op: &StoreOp) {
    let api = client();
    match op {
        StoreOp::Persist { token, persist } => {
            disk.0 = Some(token.clone());
            disk.1 = Some(api.persist_token_to_project(*persist));
        }
        StoreOp::MarkCleanExit { clean } => {
            disk.1 = Some(api.set_clean_exit_meta(disk.1.clone(), *clean));
        }
        StoreOp::Clear => {
            disk.0 = None;
            disk.1 = None;
        }
    }
}

fn next_run(disk: &mut (Option<String>, Option<Vec<u8>>)) -> ApiClient {
    let mut api = client();
    let meta = api.load_token_meta(disk.1.clone());
    let op = startup(&mut api, meta, disk.0.clone());
    apply(disk, &op);
    api
}

#[test]
fn crash_after_persisted_login_is_not_restored() {
    let mut disk = (None, None);
    let mut api = next_run(&mut disk);
    let op = login_succeeded(&mut api, "tok123".to_string(), true);
    apply(&mut disk, &op);
    // the process dies here: no clean exit is recorded
    let api2 = next_run(&mut disk);
    assert!(!api2.has_token());
}

#[test]
fn graceful_exit_after_persisted_login_is_restored() {
    let mut disk = (None, None);
    let mut api = next_run(&mut disk);
    let op = login_succeeded(&mut api, "tok123".to_string(), true);
    apply(&mut disk, &op);
    apply(&mut disk, &graceful_exit());
    let api2 = next_run(&mut disk);
    assert_eq!(api2.token.as_deref(), Some("tok123"));
    // and the restored run is itself marked unclean until it exits
    assert_eq!(TokenMeta::decode(disk.1.as_ref().unwrap()), TokenMeta { persist: true, clean_exit: false });
}

#[test]
fn logout_clears_store_whatever_the_flag() {
    for remember in [false, true] {
        let mut disk = (None, None);
        let mut api = next_run(&mut disk);
        let op = login_succeeded(&mut api, "tok".to_string(), remember);
        apply(&mut disk, &op);
        let op = logout(&mut api);
        assert!(matches!(op, StoreOp::Clear));
        assert!(!api.has_token());
        apply(&mut disk, &op);
        assert_eq!(disk, (None, None));
        apply(&mut disk, &graceful_exit());
        let api2 = next_run(&mut disk);
        assert!(!api2.has_token());
    }
}
