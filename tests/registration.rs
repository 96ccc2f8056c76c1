use base64::Engine as _;
use passkey_registration::decimal::{i64_to_text, parse_i64};
use passkey_registration::engine::{CeremonyEngine, RP_ID, RP_NAME, RP_ORIGIN};
use passkey_registration::model::{NewUserInfo, RegistrationError};
use passkey_registration::record::{check_taken, encode_pending, session_key_of, AttrValue, Attribute};
use passkey_registration::registration::{
    conclude_verification, finish_registration, start_registration, FinishRegistrationSession,
    StartedRegistration, SESSION_TTL_SECS,
};
use passkey_registration::route::{route, Job, RouteError};
use passkey_registration::store::SessionTable;
use webauthn_rs::prelude::{RegisterPublicKeyCredential, WebauthnError};

const NOW: i64 = 1_700_000_000;

fn alice() -> NewUserInfo {
    NewUserInfo { username: "alice".to_string(), display_name: "Alice A".to_string() }
}

fn engine() -> CeremonyEngine {
    CeremonyEngine::new(RP_ID, RP_ORIGIN, RP_NAME).expect("valid relying party")
}

fn challenge_of(started: &StartedRegistration) -> String {
    let json = serde_json::to_string(&started.session.credential_creation_options).unwrap();
    let value: serde_json::Value = serde_json::from_str(&json).unwrap();
    value["publicKey"]["challenge"].as_str().unwrap().to_string()
}

fn forged_response(session_id: &str) -> FinishRegistrationSession {
    let b64 = base64::engine::general_purpose::URL_SAFE_NO_PAD;
    let client_data = b64.encode(
        r#"{"type":"webauthn.create","challenge":"AAAAAAAAAAAAAAAAAAAAAA","origin":"http://localhost:5173"}"#,
    );
    let text = format!(
        r#"{{"id":"AAAA","rawId":"AAAA","response":{{"attestationObject":"AAAA","clientDataJSON":"{}"}},"type":"public-key","extensions":{{}}}}"#,
        client_data
    );
    let credential: RegisterPublicKeyCredential = serde_json::from_str(&text).unwrap();
    FinishRegistrationSession { session_id: session_id.to_string(), public_key_credential: credential }
}

fn attr(name: &str, value: AttrValue) -> Attribute {
    Attribute { name: name.to_string(), value }
}

#[test]
fn parses_decimal_numbers() {
    assert_eq!(parse_i64("1700000060"), Some(1_700_000_060));
    assert_eq!(parse_i64("0"), Some(0));
    assert_eq!(parse_i64("-42"), Some(-42));
    assert_eq!(parse_i64("007"), Some(7));
    assert_eq!(parse_i64("9223372036854775807"), Some(i64::MAX));
    assert_eq!(parse_i64("-9223372036854775808"), Some(i64::MIN));
}

#[test]
fn rejects_malformed_decimal_numbers() {
    assert_eq!(parse_i64(""), None);
    assert_eq!(parse_i64("-"), None);
    assert_eq!(parse_i64("+5"), None);
    assert_eq!(parse_i64("12a"), None);
    assert_eq!(parse_i64(" 12"), None);
    assert_eq!(parse_i64("9223372036854775808"), None);
    assert_eq!(parse_i64("-9223372036854775809"), None);
    assert_eq!(parse_i64("123456789012345678901234567890"), None);
}

#[test]
fn routes_steps_under_base_path() {
    assert_eq!(route("/auth/credentials/start", "/auth/credentials/"), Ok(Job::Start));
    assert_eq!(route("/auth/credentials/finish", "/auth/credentials/"), Ok(Job::Finish));
    assert_eq!(route("/auth/credentials/start", "/auth/credentials"), Ok(Job::Start));
    assert_eq!(route("/auth/finish", "/auth///"), Ok(Job::Finish));
    assert_eq!(route("/start", "/"), Ok(Job::Start));
}

#[test]
fn refuses_paths_outside_base_or_unknown() {
    assert_eq!(route("/other/start", "/auth/"), Err(RouteError::OutsideBasePath));
    assert_eq!(route("/au", "/auth/"), Err(RouteError::OutsideBasePath));
    assert_eq!(route("/auth/list", "/auth/"), Err(RouteError::UnsupportedJob));
    assert_eq!(route("/auth/start/", "/auth/"), Err(RouteError::UnsupportedJob));
    assert_eq!(route("/auth", "/auth/"), Err(RouteError::UnsupportedJob));
}

#[test]
fn session_key_has_registration_prefix() {
    assert_eq!(session_key_of("abc"), "registration#abc");
}

#[test]
fn encoded_record_reads_back_while_live() {
    let item = encode_pending("sid", "handle", &alice(), "{\"state\":1}", NOW + 60);
    assert_eq!(item.len(), 5);
    assert_eq!(item[0].name, "pk");
    assert!(matches!(&item[0].value, AttrValue::S(s) if s == "registration#sid"));
    assert!(matches!(&item[1].value, AttrValue::N(s) if s == "1700000060"));
    match &item[3].value {
        AttrValue::M(m) => {
            assert_eq!(m[0], ("username".to_string(), "alice".to_string()));
            assert_eq!(m[1], ("displayName".to_string(), "Alice A".to_string()));
        }
        _ => panic!("user info is a map"),
    }
    let live = check_taken(Some(&item), NOW).unwrap();
    assert_eq!(live.user_handle, "handle");
    assert_eq!(live.ceremony_state, "{\"state\":1}");
    assert_eq!(live.expires_at, NOW + 60);
    assert!(check_taken(Some(&item), NOW + 59).is_ok());
}

#[test]
fn record_is_expired_at_and_after_its_instant() {
    let item = encode_pending("sid", "handle", &alice(), "{}", NOW + 60);
    assert_eq!(check_taken(Some(&item), NOW + 60).err(), Some(RegistrationError::Expired));
    assert_eq!(check_taken(Some(&item), NOW + 3600).err(), Some(RegistrationError::Expired));
}

#[test]
fn missing_record_is_not_found() {
    assert_eq!(check_taken(None, NOW).err(), Some(RegistrationError::SessionNotFound));
}

#[test]
fn malformed_records_are_refused() {
    let no_ttl = vec![attr("userId", AttrValue::S("h".to_string())), attr("state", AttrValue::S("{}".to_string()))];
    assert_eq!(check_taken(Some(&no_ttl), NOW).err(), Some(RegistrationError::MalformedSession));
    let bad_ttl = vec![
        attr("ttl", AttrValue::N("soon".to_string())),
        attr("userId", AttrValue::S("h".to_string())),
        attr("state", AttrValue::S("{}".to_string())),
    ];
    assert_eq!(check_taken(Some(&bad_ttl), NOW).err(), Some(RegistrationError::MalformedSession));
    let text_ttl = vec![
        attr("ttl", AttrValue::S("1700000060".to_string())),
        attr("userId", AttrValue::S("h".to_string())),
        attr("state", AttrValue::S("{}".to_string())),
    ];
    assert_eq!(check_taken(Some(&text_ttl), NOW).err(), Some(RegistrationError::MalformedSession));
    let no_state = vec![attr("ttl", AttrValue::N("1700000060".to_string())), attr("userId", AttrValue::S("h".to_string()))];
    assert_eq!(check_taken(Some(&no_state), NOW).err(), Some(RegistrationError::MalformedSession));
}

#[test]
fn table_takes_a_record_once() {
    let mut table = SessionTable::new();
    let item = encode_pending("s1", "h", &alice(), "{}", NOW + 60);
    assert_eq!(table.put("registration#s1".to_string(), item), Ok(()));
    let first = table.take_once("registration#s1");
    assert!(first.is_some());
    assert_eq!(first.unwrap().len(), 5);
    assert!(table.take_once("registration#s1").is_none());
    assert!(table.take_once("registration#unknown").is_none());
}

#[test]
fn table_refuses_a_colliding_key() {
    let mut table = SessionTable::new();
    let a = encode_pending("s1", "h1", &alice(), "{}", NOW + 60);
    let b = encode_pending("s1", "h2", &alice(), "{}", NOW + 60);
    assert_eq!(table.put("registration#s1".to_string(), a), Ok(()));
    assert_eq!(table.put("registration#s1".to_string(), b), Err(RegistrationError::SessionIdCollision));
    let kept = table.take_once("registration#s1").unwrap();
    assert!(matches!(&kept[2].value, AttrValue::S(s) if s == "h1"));
}

#[test]
fn engine_refuses_bad_relying_party() {
    assert!(CeremonyEngine::new(RP_ID, RP_ORIGIN, RP_NAME).is_ok());
    assert_eq!(
        CeremonyEngine::new("example.com", RP_ORIGIN, RP_NAME).err(),
        Some(RegistrationError::Configuration)
    );
    assert_eq!(
        CeremonyEngine::new(RP_ID, "not a url", RP_NAME).err(),
        Some(RegistrationError::Configuration)
    );
}

#[test]
fn start_lays_out_a_pending_registration() {
    let engine = engine();
    let started = start_registration(&engine, &alice(), NOW).unwrap();
    assert_eq!(started.expires_at, NOW + SESSION_TTL_SECS);
    // 32 and 16 random bytes in unpadded URL-safe base64
    assert_eq!(started.session.session_id.len(), 43);
    assert_eq!(started.user_handle.len(), 22);
    assert!(started
        .session
        .session_id
        .chars()
        .all(|c| c.is_ascii_alphanumeric() || c == '-' || c == '_'));
    assert!(!started.session.session_id.contains('='));
    let live = check_taken(Some(&started.item), NOW).unwrap();
    assert_eq!(live.user_handle, started.user_handle);
    assert_eq!(live.ceremony_state, started.ceremony_state);
    assert!(matches!(&started.item[0].value, AttrValue::S(s)
        if *s == format!("registration#{}", started.session.session_id)));
}

#[test]
fn starts_issue_distinct_sessions_and_challenges() {
    let engine = engine();
    let one = start_registration(&engine, &alice(), NOW).unwrap();
    let two = start_registration(&engine, &alice(), NOW).unwrap();
    assert_ne!(one.session.session_id, two.session.session_id);
    assert_ne!(one.user_handle, two.user_handle);
    assert_ne!(challenge_of(&one), challenge_of(&two));
}

#[test]
fn forged_response_is_rejected_then_session_is_gone() {
    let engine = engine();
    let mut table = SessionTable::new();
    let started = start_registration(&engine, &alice(), NOW).unwrap();
    let key = session_key_of(&started.session.session_id);
    table.put(key.clone(), started.item).unwrap();
    let finish = forged_response(&started.session.session_id);
    let taken = table.take_once(&key);
    assert_eq!(
        finish_registration(&engine, &finish, taken.as_ref(), NOW + 5).err(),
        Some(RegistrationError::CeremonyVerificationFailed)
    );
    let again = table.take_once(&key);
    assert_eq!(
        finish_registration(&engine, &finish, again.as_ref(), NOW + 6).err(),
        Some(RegistrationError::SessionNotFound)
    );
}

#[test]
fn finish_after_expiry_is_expired_and_consumed() {
    let engine = engine();
    let mut table = SessionTable::new();
    let started = start_registration(&engine, &alice(), NOW).unwrap();
    let key = session_key_of(&started.session.session_id);
    table.put(key.clone(), started.item).unwrap();
    let finish = forged_response(&started.session.session_id);
    let taken = table.take_once(&key);
    assert_eq!(
        finish_registration(&engine, &finish, taken.as_ref(), NOW + SESSION_TTL_SECS).err(),
        Some(RegistrationError::Expired)
    );
    assert!(table.take_once(&key).is_none());
}

#[test]
fn unknown_session_looks_like_consumed_one() {
    let engine = engine();
    let finish = forged_response("never-issued");
    let unknown = finish_registration(&engine, &finish, None, NOW).err();
    let mut table = SessionTable::new();
    let started = start_registration(&engine, &alice(), NOW).unwrap();
    let key = session_key_of(&started.session.session_id);
    table.put(key.clone(), started.item).unwrap();
    let _ = table.take_once(&key);
    let consumed = finish_registration(&engine, &finish, table.take_once(&key).as_ref(), NOW).err();
    assert_eq!(unknown, Some(RegistrationError::SessionNotFound));
    assert_eq!(unknown, consumed);
}

#[test]
fn corrupt_ceremony_state_is_malformed() {
    let engine = engine();
    let item = encode_pending("sid", "handle", &alice(), "not json", NOW + 60);
    let finish = forged_response("sid");
    assert_eq!(
        finish_registration(&engine, &finish, Some(&item), NOW).err(),
        Some(RegistrationError::MalformedSession)
    );
}

#[test]
fn failed_verdict_is_a_failed_ceremony() {
    let live = check_taken(Some(&encode_pending("s", "h", &alice(), "{}", NOW + 60)), NOW).unwrap();
    assert_eq!(
        conclude_verification(live, Err(WebauthnError::Configuration)).err(),
        Some(RegistrationError::CeremonyVerificationFailed)
    );
}

#[test]
fn formats_decimal_numbers() {
    assert_eq!(i64_to_text(0), "0");
    assert_eq!(i64_to_text(1_700_000_060), "1700000060");
    assert_eq!(i64_to_text(-42), "-42");
    assert_eq!(i64_to_text(i64::MAX), "9223372036854775807");
    assert_eq!(i64_to_text(i64::MIN), "-9223372036854775808");
    assert_eq!(parse_i64(&i64_to_text(-1234567)), Some(-1234567));
}

#[test]
fn empty_names_are_refused() {
    let engine = engine();
    let no_name = NewUserInfo { username: String::new(), display_name: "Alice A".to_string() };
    assert_eq!(start_registration(&engine, &no_name, NOW).err(), Some(RegistrationError::InvalidUserInfo));
    let no_display = NewUserInfo { username: "alice".to_string(), display_name: String::new() };
    assert_eq!(start_registration(&engine, &no_display, NOW).err(), Some(RegistrationError::InvalidUserInfo));
}

#[test]
fn expired_record_is_expired_even_if_incomplete() {
    let no_user = vec![attr("ttl", AttrValue::N("1700000060".to_string())), attr("state", AttrValue::S("{}".to_string()))];
    assert_eq!(check_taken(Some(&no_user), NOW + 60).err(), Some(RegistrationError::Expired));
    assert_eq!(check_taken(Some(&no_user), NOW).err(), Some(RegistrationError::MalformedSession));
}
