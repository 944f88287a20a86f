use map_auth::db::crypto::DbCrypto;
use map_auth::db::MapDB;
use map_auth::error::AuthError;
use map_auth::web_srv::response::JSONResponse;
use map_auth::web_srv::user::login::{
    check_totp, check_totp_at, does_this_user_have_permission, get_login_id, get_login_id_at,
    get_this_user, get_this_user_id, get_this_username, get_user, index, is_user, login, login_at,
    logout, register, register_with, set_session, validate_identity, validate_session,
    LoginJSONIn, LoginTOTPReq, Session, SessionState, UserClientData,
};
use std::time::{SystemTime, UNIX_EPOCH};

const SALT: &str = "SaltSaltSaltSaltSaltSaltSaltSalt";
const SECRET: &str = "ABCDEFGHIJKLMNOP";
const NOW: u64 = 1_700_000_000;

fn request(username: &str, password: &str, code: Option<&str>) -> LoginJSONIn {
    LoginJSONIn {
        username: username.to_string(),
        password: password.to_string(),
        totp_code: code.map(|c| c.to_string()),
    }
}

fn confirmation(code: &str) -> LoginTOTPReq {
    LoginTOTPReq { totp_code: code.to_string() }
}

fn wrong_code(right: &str) -> &'static str {
    if right == "000000" {
        "000001"
    } else {
        "000000"
    }
}

fn clock() -> u64 {
    SystemTime::now().duration_since(UNIX_EPOCH).unwrap().as_secs()
}

fn error_text(response: &JSONResponse) -> Option<String> {
    match response {
        JSONResponse::ErrorMsg(m) => Some(m.error.clone()),
        _ => None,
    }
}

#[test]
fn register_login_confirm_logout() {
    let mut db = MapDB::new();
    let mut session = Session::new();
    assert_eq!(session.state(), SessionState::Anonymous);

    // register alice
    let answer =
        register_with(&mut session, &request("alice", "secret123", None), &mut db, SALT, SECRET)
            .unwrap();
    assert_eq!(answer.status, "OK");
    assert_eq!(Some(answer.qr_code), DbCrypto::gen_totp_qr("alice", SECRET));
    assert_eq!(session.state(), SessionState::Identified);
    assert_eq!(get_this_username(&session), Some("alice".to_string()));
    assert!(!db.is_user_totp_verified("alice"));
    assert_eq!(db.get_user_by_username("alice").unwrap().group.group_name, "guest");

    // a fresh session: login with a wrong one-time password
    let code = DbCrypto::generate_totp(SECRET, NOW);
    let mut other = Session::new();
    assert_eq!(
        login_at(&mut other, &request("alice", "secret123", Some(wrong_code(&code))), &db, NOW),
        Err(AuthError::InvalidCredentials)
    );
    assert_eq!(other.state(), SessionState::Anonymous);
    assert_eq!(get_this_username(&other), None);

    // login with the right password and code
    assert_eq!(
        login_at(&mut other, &request("alice", "secret123", Some(&code)), &db, NOW),
        Ok(())
    );
    assert_eq!(other.state(), SessionState::Identified);
    assert_eq!(get_this_username(&other), Some("alice".to_string()));
    assert!(!validate_session(&other, &db));
    assert!(validate_identity(&other, &db));

    // confirm enrolment
    assert_eq!(check_totp_at(&mut other, &confirmation(&code), &mut db, NOW), Ok(()));
    assert_eq!(other.state(), SessionState::Verified);
    assert!(db.is_user_totp_verified("alice"));
    assert!(validate_session(&other, &db));

    // confirming again goes through and changes nothing
    assert_eq!(check_totp_at(&mut other, &confirmation(&code), &mut db, NOW), Ok(()));
    assert_eq!(other.state(), SessionState::Verified);
    assert!(db.is_user_totp_verified("alice"));
    assert_eq!(db.get_all_users().len(), 1);

    // logout
    db.edit_user_group("guest", "*");
    assert!(does_this_user_have_permission(&other, &db, "addComment"));
    assert_eq!(logout(&mut other), Ok(()));
    assert_eq!(other.state(), SessionState::Anonymous);
    assert_eq!(get_this_username(&other), None);
    assert!(!does_this_user_have_permission(&other, &db, "addComment"));
    assert!(!does_this_user_have_permission(&other, &db, ""));
    assert!(!does_this_user_have_permission(&other, &db, "*"));
    assert!(!validate_identity(&other, &db));
    assert_eq!(get_this_user_id(&other, &db), -1);
}

#[test]
fn a_later_login_starts_with_the_stored_mark() {
    let mut db = MapDB::new();
    db.add_user_with("alice", "secret123", SALT, SECRET).unwrap();
    db.verified_totp("alice");
    let code = DbCrypto::generate_totp(SECRET, NOW);
    let mut session = Session::new();
    assert_eq!(login_at(&mut session, &request("alice", "secret123", Some(&code)), &db, NOW), Ok(()));
    assert_eq!(session.state(), SessionState::Verified);
    assert!(session.totp_verified());
    assert!(validate_session(&session, &db));
}

#[test]
fn login_is_refused_on_a_session_with_an_identity() {
    let mut db = MapDB::new();
    db.add_user_with("alice", "secret123", SALT, SECRET).unwrap();
    db.add_user_with("bob", "pw", SALT, SECRET).unwrap();
    let code = DbCrypto::generate_totp(SECRET, NOW);
    let mut session = Session::new();
    login_at(&mut session, &request("alice", "secret123", Some(&code)), &db, NOW).unwrap();
    assert_eq!(
        login_at(&mut session, &request("bob", "pw", Some(&code)), &db, NOW),
        Err(AuthError::AlreadyAuthenticated)
    );
    assert_eq!(
        login_at(&mut session, &request("alice", "secret123", Some(&code)), &db, NOW),
        Err(AuthError::AlreadyAuthenticated)
    );
    assert_eq!(get_this_username(&session), Some("alice".to_string()));
    assert_eq!(
        register_with(&mut session, &request("carol", "pw", None), &mut db, SALT, SECRET)
            .unwrap_err(),
        AuthError::AlreadyAuthenticated
    );
    assert!(!db.is_user("carol"));
    assert_eq!(
        register(&mut session, &request("carol", "pw", None), &mut db).unwrap_err(),
        AuthError::AlreadyAuthenticated
    );
    assert_eq!(
        login(&mut session, &request("bob", "pw", Some(&code)), &db),
        Err(AuthError::AlreadyAuthenticated)
    );
}

#[test]
fn every_failed_login_gets_the_same_refusal() {
    let mut db = MapDB::new();
    db.add_user_with("alice", "secret123", SALT, SECRET).unwrap();
    let code = DbCrypto::generate_totp(SECRET, NOW);
    let attempts = [
        request("alice", "secret123", None),
        request("alice", "secret123", Some(wrong_code(&code))),
        request("alice", "wrong", Some(&code)),
        request("nobody", "secret123", Some(&code)),
        request("", "", Some("")),
        request("alice", "secret123", Some("")),
    ];
    for attempt in attempts.iter() {
        let mut session = Session::new();
        assert_eq!(login_at(&mut session, attempt, &db, NOW), Err(AuthError::InvalidCredentials));
        assert_eq!(session.state(), SessionState::Anonymous);
        assert_eq!(get_login_id_at(attempt, &db, NOW), -1);
    }
    let mut session = Session::new();
    assert_eq!(
        login_at(&mut session, &request("alice", "secret123", Some(&code)), &db, NOW + 30),
        Err(AuthError::InvalidCredentials)
    );
    assert_eq!(get_login_id_at(&request("alice", "secret123", Some(&code)), &db, NOW), 1);
}

#[test]
fn registration_is_refused_for_a_taken_name() {
    let mut db = MapDB::new();
    db.add_user_with("alice", "secret123", SALT, SECRET).unwrap();
    let mut session = Session::new();
    assert_eq!(
        register_with(&mut session, &request("alice", "other", None), &mut db, SALT, SECRET)
            .unwrap_err(),
        AuthError::UserExists
    );
    assert_eq!(
        register(&mut session, &request("alice", "other", None), &mut db).unwrap_err(),
        AuthError::UserExists
    );
    assert_eq!(session.state(), SessionState::Anonymous);
    assert_eq!(db.get_all_users().len(), 1);
    let code = DbCrypto::generate_totp(SECRET, NOW);
    assert_eq!(db.is_user_login_at("alice", "secret123", &code, NOW), 1);
}

#[test]
fn registration_fails_where_the_payload_cannot_be_drawn() {
    let mut db = MapDB::new();
    let mut session = Session::new();
    let long_name = "x".repeat(4000);
    assert_eq!(
        register(&mut session, &request(&long_name, "pw", None), &mut db).unwrap_err(),
        AuthError::StorageFailure
    );
    assert_eq!(session.state(), SessionState::Anonymous);
    assert!(db.get_all_users().is_empty());
}

#[test]
fn register_draws_fresh_credentials() {
    let mut db = MapDB::new();
    let mut session = Session::new();
    let answer = register(&mut session, &request("alice", "secret123", None), &mut db).unwrap();
    assert_eq!(answer.status, "OK");
    let secret = db.get_user_totp_secret("alice");
    assert_eq!(secret.len(), 16);
    assert_eq!(db.get_user_salt("alice").len(), 32);
    assert_eq!(Some(answer.qr_code), DbCrypto::gen_totp_qr("alice", &secret));
    assert_eq!(session.state(), SessionState::Identified);
    assert_eq!(get_this_username(&session), Some("alice".to_string()));
    assert_eq!(get_this_user_id(&session, &db), 1);
    assert_eq!(get_this_user(&session, &db).unwrap().group.group_name, "guest");
}

#[test]
fn confirmation_needs_an_identity_and_the_right_code() {
    let mut db = MapDB::new();
    db.add_user_with("alice", "secret123", SALT, SECRET).unwrap();
    let code = DbCrypto::generate_totp(SECRET, NOW);
    let mut session = Session::new();
    assert_eq!(
        check_totp_at(&mut session, &confirmation(&code), &mut db, NOW),
        Err(AuthError::NotAuthenticated)
    );
    assert_eq!(
        check_totp(&mut session, &confirmation(&code), &mut db),
        Err(AuthError::NotAuthenticated)
    );
    login_at(&mut session, &request("alice", "secret123", Some(&code)), &db, NOW).unwrap();
    assert_eq!(
        check_totp_at(&mut session, &confirmation(wrong_code(&code)), &mut db, NOW),
        Err(AuthError::InvalidTotpCode)
    );
    assert_eq!(
        check_totp_at(&mut session, &confirmation(&code), &mut db, NOW + 30),
        Err(AuthError::InvalidTotpCode)
    );
    assert_eq!(session.state(), SessionState::Identified);
    assert!(!db.is_user_totp_verified("alice"));
    assert_eq!(check_totp_at(&mut session, &confirmation(&code), &mut db, NOW + 5), Ok(()));
    assert_eq!(session.state(), SessionState::Verified);
    // a wrong code is refused on a verified session too, and takes nothing back
    assert_eq!(
        check_totp_at(&mut session, &confirmation(wrong_code(&code)), &mut db, NOW),
        Err(AuthError::InvalidTotpCode)
    );
    assert_eq!(session.state(), SessionState::Verified);
    assert!(db.is_user_totp_verified("alice"));
}

#[test]
fn login_and_confirmation_read_the_clock() {
    let mut db = MapDB::new();
    db.add_user_with("alice", "secret123", SALT, SECRET).unwrap();
    let mut done = false;
    for _ in 0..5 {
        let before = clock();
        let code = DbCrypto::generate_totp(SECRET, before);
        let mut session = Session::new();
        let attempt = request("alice", "secret123", Some(&code));
        let id = get_login_id(&attempt, &db);
        let logged_in = login(&mut session, &attempt, &db);
        let confirmed = check_totp(&mut session, &confirmation(&code), &mut db);
        let valid = db.is_user_totp("alice", &code);
        let user_id = db.is_user_login("alice", "secret123", &code);
        if before / 30 == clock() / 30 {
            assert_eq!(id, 1);
            assert_eq!(logged_in, Ok(()));
            assert_eq!(confirmed, Ok(()));
            assert!(valid);
            assert_eq!(user_id, 1);
            assert_eq!(session.state(), SessionState::Verified);
            done = true;
            break;
        }
    }
    assert!(done);
    let mut session = Session::new();
    let stale = DbCrypto::generate_totp(SECRET, 59);
    if stale != DbCrypto::generate_totp(SECRET, clock()) {
        assert_eq!(
            login(&mut session, &request("alice", "secret123", Some(&stale)), &db),
            Err(AuthError::InvalidCredentials)
        );
    }
    assert_eq!(get_login_id(&request("alice", "secret123", None), &db), -1);
}

#[test]
fn logout_is_refused_without_an_identity() {
    let mut session = Session::new();
    assert_eq!(logout(&mut session), Err(AuthError::NotAuthenticated));
    assert_eq!(session.state(), SessionState::Anonymous);
    session.remember("alice");
    set_session(&mut session, true);
    assert_eq!(session.state(), SessionState::Verified);
    assert_eq!(logout(&mut session), Ok(()));
    assert_eq!(session.state(), SessionState::Anonymous);
    assert!(!session.totp_verified());
    assert_eq!(session.user_data(), None);
    assert_eq!(logout(&mut session), Err(AuthError::NotAuthenticated));
}

#[test]
fn sessions_are_restored_from_what_the_transport_kept() {
    let anonymous = Session::restore(None, Some(UserClientData { totp_verified: true }));
    assert_eq!(anonymous.state(), SessionState::Anonymous);
    let identified = Session::restore(Some("alice".to_string()), None);
    assert_eq!(identified.state(), SessionState::Identified);
    assert_eq!(identified.user_data(), None);
    let unverified =
        Session::restore(Some("alice".to_string()), Some(UserClientData { totp_verified: false }));
    assert_eq!(unverified.state(), SessionState::Identified);
    let verified =
        Session::restore(Some("alice".to_string()), Some(UserClientData { totp_verified: true }));
    assert_eq!(verified.state(), SessionState::Verified);
    assert_eq!(verified.user_data(), Some(UserClientData { totp_verified: true }));
    assert_eq!(get_this_username(&verified), Some("alice".to_string()));
}

#[test]
fn a_session_for_an_unknown_user_has_no_rights() {
    let mut db = MapDB::new();
    db.edit_user_group("guest", "*");
    let ghost = Session::restore(Some("ghost".to_string()), Some(UserClientData { totp_verified: true }));
    assert!(!validate_identity(&ghost, &db));
    assert!(!validate_session(&ghost, &db));
    assert!(get_this_user(&ghost, &db).is_none());
    assert_eq!(get_this_user_id(&ghost, &db), -1);
    assert!(!does_this_user_have_permission(&ghost, &db, "addComment"));
    assert_eq!(error_text(&index(&ghost, &db)), Some("Not logged in".to_string()));
}

#[test]
fn permissions_come_from_the_users_group() {
    let mut db = MapDB::new();
    db.add_user_with("alice", "secret123", SALT, SECRET).unwrap();
    db.add_user_with("root", "pw", SALT, SECRET).unwrap();
    db.add_user_to_group(2, db.get_user_group_id_admin());
    let alice = Session::restore(Some("alice".to_string()), None);
    let root = Session::restore(Some("root".to_string()), None);
    assert!(!does_this_user_have_permission(&alice, &db, "addComment"));
    assert!(does_this_user_have_permission(&alice, &db, ""));
    assert!(does_this_user_have_permission(&root, &db, "addComment"));
    assert!(does_this_user_have_permission(&root, &db, ""));
    assert!(does_this_user_have_permission(&root, &db, "anything at all"));
    db.edit_user_group("guest", "addComment");
    assert!(does_this_user_have_permission(&alice, &db, "addComment"));
    assert!(does_this_user_have_permission(&alice, &db, "add"));
    assert!(!does_this_user_have_permission(&alice, &db, "editComment"));
}

#[test]
fn profile_requests_answer_with_profiles_or_refusals() {
    let mut db = MapDB::new();
    db.add_user_with("alice", "secret123", SALT, SECRET).unwrap();
    db.add_user_with("bob", "pw", SALT, SECRET).unwrap();
    let anonymous = Session::new();
    let identified = Session::restore(Some("alice".to_string()), None);
    let verified =
        Session::restore(Some("alice".to_string()), Some(UserClientData { totp_verified: true }));

    assert_eq!(error_text(&index(&anonymous, &db)), Some("Not logged in".to_string()));
    match index(&identified, &db) {
        JSONResponse::UserInfo(user) => {
            assert_eq!(user.username, "alice");
            assert_eq!(user.group.group_name, "guest");
        }
        _ => panic!("expected a profile"),
    }

    assert_eq!(error_text(&get_user("bob", &anonymous, &db)), Some("Must be logged in".to_string()));
    assert_eq!(error_text(&get_user("bob", &identified, &db)), Some("Must be logged in".to_string()));
    assert_eq!(error_text(&get_user("carol", &identified, &db)), Some("Must be logged in".to_string()));
    assert_eq!(error_text(&get_user("carol", &verified, &db)), Some("No such user".to_string()));
    match get_user("bob", &verified, &db) {
        JSONResponse::UserInfo(user) => assert_eq!(user.username, "bob"),
        _ => panic!("expected a profile"),
    }

    match is_user("alice", &db) {
        JSONResponse::StatusMsg(m) => assert_eq!(m.status, "OK"),
        _ => panic!("expected a status"),
    }
    assert_eq!(error_text(&is_user("carol", &db)), Some("No such user".to_string()));
}
