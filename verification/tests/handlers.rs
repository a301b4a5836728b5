use memory_api::api::memory::{save, save_reply, SaveRequest};
use memory_api::api::user::auth::{issue_token, TokenIssueError, UserClaims};
use memory_api::api::user::{
    authenticate, bail, decide_login, signin, signin_at, signup, signup_reply, ValidationError,
};
use memory_api::api::{not_found, store_reply, AppError, Json, MessageResponse};
use memory_api::infra::dto::{GameDate, ReadHashedUser, UserSignin, UserSignup};
use memory_api::infra::password::HashFormatError;
use memory_api::infra::user_id::UserId;
use memory_api::models::Difficulty;

const SECRET: &str = "a-long-server-secret";
const T0: i64 = 1_700_000_000;
const ALICE_HASH: &str = "$2b$04$EGdrhbKUv8Oc9vGiXX0HQOxSg445d458Muh7DAHskb6QbtCvdxcie";
const ALICE_PASSWORD: &str = "correctbatteryhorsestapler";

fn alice_id() -> UserId {
    UserId::from_bytes([0x65, 0x4f, 0x1a, 0x00, 0xff, 0x10, 0x9b, 0xc3, 0x7e, 0x01, 0xab, 0xcd])
}

fn stored_alice() -> ReadHashedUser {
    ReadHashedUser {
        id: alice_id(),
        username: String::from("alice"),
        password: String::from(ALICE_HASH),
    }
}

fn login(password: &str) -> UserSignin {
    UserSignin { username: String::from("alice"), password: String::from(password) }
}

fn refused(outcome: Result<String, AppError>) -> AppError {
    match outcome {
        Ok(header) => panic!("logged in with {}", header),
        Err(e) => e,
    }
}

#[test]
fn message_response_holds_its_message() {
    let Json(body) = MessageResponse::new("User registered successfully");
    assert_eq!(body.message(), "User registered successfully");
    let Json(body) = MessageResponse::new("");
    assert_eq!(body.message(), "");
}

#[test]
fn unknown_path_is_answered_with_404() {
    let (status, Json(body)) = not_found();
    assert_eq!(status, 404);
    assert_eq!(body.message(), "The requested resource could not be found.");
}

#[test]
fn validation_errors_have_their_messages() {
    assert_eq!(ValidationError::UsernameAlreadyTaken.message(), "Username already exists");
    assert_eq!(ValidationError::InvalidCredentials.message(), "Invalid username or password");
    assert_eq!(
        ValidationError::InvalidPasswordFormat(HashFormatError::Malformed).message(),
        "Password in invalid format"
    );
    assert_eq!(
        ValidationError::InvalidJsonBodyParameters(String::from("missing field `password`")).message(),
        "Invalid json body parameters: missing field `password`"
    );
}

#[test]
fn validation_errors_are_answered_with_400() {
    let errors = [
        ValidationError::UsernameAlreadyTaken,
        ValidationError::InvalidCredentials,
        ValidationError::InvalidPasswordFormat(HashFormatError::Malformed),
        ValidationError::InvalidJsonBodyParameters(String::from("no body")),
    ];
    for e in errors {
        let message = e.message();
        let error = AppError::Validation(e);
        assert_eq!(error.status_code(), 400);
        assert_eq!(error.message(), message);
        assert_eq!(error.log_line(), message);
        let (status, Json(body)) = error.into_response();
        assert_eq!(status, 400);
        assert_eq!(body.message(), message);
    }
}

#[test]
fn store_failure_is_answered_with_500_and_a_generic_message() {
    let first = AppError::IO(String::from("connection refused by 10.0.0.5:27017"));
    let second = AppError::IO(String::from("duplicate key"));
    assert_eq!(first.status_code(), 500);
    assert_eq!(first.message(), "Error during IO operation");
    assert_eq!(second.message(), first.message());
    let (status, Json(body)) = first.into_response();
    assert_eq!(status, 500);
    assert_eq!(body.message(), "Error during IO operation");
}

#[test]
fn store_failure_is_logged_with_its_cause() {
    let error = AppError::IO(String::from("connection refused by 10.0.0.5:27017"));
    assert_eq!(error.log_line(), "Error during IO operation: connection refused by 10.0.0.5:27017");
}

#[test]
fn token_failure_is_answered_with_500() {
    for cause in [TokenIssueError::Encoding, TokenIssueError::ClockOutOfRange] {
        let error = AppError::Token(cause);
        assert_eq!(error.status_code(), 500);
        assert_eq!(error.message(), "Failed to encode JWT");
        assert_eq!(error.log_line(), "Failed to encode JWT");
    }
}

#[test]
fn bail_wraps_the_validation_error() {
    let r: Result<u8, AppError> = bail(ValidationError::InvalidCredentials);
    assert!(matches!(r, Err(AppError::Validation(ValidationError::InvalidCredentials))));
    let r: Result<String, AppError> = bail(ValidationError::UsernameAlreadyTaken);
    assert!(matches!(r, Err(AppError::Validation(ValidationError::UsernameAlreadyTaken))));
}

#[test]
fn store_reply_reports_success_or_the_cause() {
    let Json(body) = store_reply(Ok(()), "done").expect("the store wrote");
    assert_eq!(body.message(), "done");
    match store_reply(Err(String::from("disk full")), "done") {
        Err(AppError::IO(cause)) => assert_eq!(cause, "disk full"),
        other => panic!("unexpected {:?}", other),
    }
}

#[test]
fn signup_with_a_taken_name_is_refused() {
    let user = UserSignup { username: String::from("alice"), password: String::from("another") };
    let r = signup(user, Some(stored_alice()));
    assert!(matches!(r, Err(AppError::Validation(ValidationError::UsernameAlreadyTaken))));
}

#[test]
fn signup_with_a_free_name_hands_the_credentials_back() {
    let user = UserSignup { username: String::from("bob"), password: String::from("hunter2") };
    let accepted = signup(user, None).expect("the name is free");
    assert_eq!(accepted.username, "bob");
    assert_eq!(accepted.password, "hunter2");
}

#[test]
fn signup_reply_reports_success_or_the_cause() {
    let Json(body) = signup_reply(Ok(())).expect("the store wrote");
    assert_eq!(body.message(), "User registered successfully");
    let error = signup_reply(Err(String::from("timeout"))).expect_err("the store failed");
    assert_eq!(error.status_code(), 500);
    assert_eq!(error.log_line(), "Error during IO operation: timeout");
}

#[test]
fn login_under_an_unknown_name_is_refused() {
    let r = authenticate(&login(ALICE_PASSWORD), None);
    assert!(matches!(r, Err(ValidationError::InvalidCredentials)));
    let e = refused(signin_at(login(ALICE_PASSWORD), None, SECRET, T0));
    assert!(matches!(e, AppError::Validation(ValidationError::InvalidCredentials)));
}

#[test]
fn login_with_a_wrong_password_is_refused() {
    let r = authenticate(&login("wrong"), Some(stored_alice()));
    assert!(matches!(r, Err(ValidationError::InvalidCredentials)));
    let e = refused(signin_at(login("wrong"), Some(stored_alice()), SECRET, T0));
    assert!(matches!(e, AppError::Validation(ValidationError::InvalidCredentials)));
}

#[test]
fn both_login_refusals_look_the_same_from_outside() {
    let unknown = refused(signin_at(login(ALICE_PASSWORD), None, SECRET, T0));
    let wrong = refused(signin_at(login("wrong"), Some(stored_alice()), SECRET, T0));
    assert_eq!(unknown.status_code(), 400);
    assert_eq!(wrong.status_code(), unknown.status_code());
    assert_eq!(unknown.message(), "Invalid username or password");
    assert_eq!(wrong.message(), unknown.message());
    let (status_a, Json(body_a)) = unknown.into_response();
    let (status_b, Json(body_b)) = wrong.into_response();
    assert_eq!(status_a, status_b);
    assert_eq!(body_a.message(), body_b.message());
}

#[test]
fn login_with_the_right_password_authenticates_the_stored_user() {
    let user = authenticate(&login(ALICE_PASSWORD), Some(stored_alice())).expect("right password");
    assert_eq!(user.id, alice_id());
    assert_eq!(user.username, "alice");
    assert_eq!(user.password, ALICE_HASH);
}

#[test]
fn login_is_decided_by_the_verdict_of_the_password_check() {
    let user = decide_login(stored_alice(), Ok(true)).expect("the password is right");
    assert_eq!(user.id, alice_id());
    assert_eq!(user.username, "alice");
    assert_eq!(user.password, ALICE_HASH);
    assert!(matches!(
        decide_login(stored_alice(), Ok(false)),
        Err(ValidationError::InvalidCredentials)
    ));
    assert!(matches!(
        decide_login(stored_alice(), Err(HashFormatError::Malformed)),
        Err(ValidationError::InvalidPasswordFormat(HashFormatError::Malformed))
    ));
}

#[test]
fn login_succeeds_exactly_with_the_right_password_while_time_remains() {
    assert!(signin_at(login(ALICE_PASSWORD), Some(stored_alice()), SECRET, T0).is_ok());
    assert!(signin_at(login(ALICE_PASSWORD), Some(stored_alice()), SECRET, i64::MAX - 3600).is_ok());
    assert!(signin_at(login(ALICE_PASSWORD), Some(stored_alice()), SECRET, i64::MAX - 3599).is_err());
    assert!(signin_at(login(ALICE_PASSWORD), Some(stored_alice()), "", i64::MIN).is_ok());
    assert!(signin_at(login("wrong"), Some(stored_alice()), SECRET, T0).is_err());
    assert!(signin_at(login(ALICE_PASSWORD), None, SECRET, T0).is_err());
    assert!(signin(login(ALICE_PASSWORD), Some(stored_alice()), SECRET).is_ok());
    assert!(signin(login(ALICE_PASSWORD), Some(stored_alice()), "").is_ok());
}

#[test]
fn login_sets_the_session_cookie() {
    let header = signin_at(login(ALICE_PASSWORD), Some(stored_alice()), SECRET, T0)
        .expect("right password");
    let who = UserClaims { id: alice_id(), username: String::from("alice") };
    let token = issue_token(who, SECRET, T0).expect("the encoder works");
    assert_eq!(header, format!("token={}; HttpOnly; SameSite=Strict; Secure; Path=/", token));
}

#[test]
fn login_against_an_unreadable_hash_is_a_format_error() {
    let mut stored = stored_alice();
    stored.password = String::from("plain-text-password");
    let e = refused(signin_at(login("plain-text-password"), Some(stored), SECRET, T0));
    assert!(matches!(
        e,
        AppError::Validation(ValidationError::InvalidPasswordFormat(HashFormatError::Malformed))
    ));
    assert_eq!(e.status_code(), 400);
    assert_eq!(e.message(), "Password in invalid format");
}

#[test]
fn login_at_the_end_of_time_issues_no_token() {
    let e = refused(signin_at(login(ALICE_PASSWORD), Some(stored_alice()), SECRET, i64::MAX));
    assert!(matches!(e, AppError::Token(TokenIssueError::ClockOutOfRange)));
    let e = refused(signin_at(login("wrong"), Some(stored_alice()), SECRET, i64::MAX));
    assert!(matches!(e, AppError::Validation(ValidationError::InvalidCredentials)));
}

#[test]
fn login_now_sets_a_cookie_for_the_present_time() {
    let before = chrono::Utc::now().timestamp();
    let header = signin(login(ALICE_PASSWORD), Some(stored_alice()), SECRET).expect("right password");
    let after = chrono::Utc::now().timestamp();
    assert!((before..=after).any(|t| {
        Ok(header.clone()) == signin_at(login(ALICE_PASSWORD), Some(stored_alice()), SECRET, t)
            .map_err(|e| e.message())
    }));
    let e = refused(signin(login("wrong"), Some(stored_alice()), SECRET));
    assert!(matches!(e, AppError::Validation(ValidationError::InvalidCredentials)));
}

#[test]
fn save_record_is_the_report_under_the_players_id() {
    let claims = UserClaims { id: alice_id(), username: String::from("alice") };
    let request = SaveRequest {
        game_date: GameDate { seconds: 1_704_067_200, nanos: 0 },
        failed: 2,
        difficulty: Difficulty::Hard,
        completed: 8,
        time_taken: 300,
    };
    let record = save(&claims, request);
    assert_eq!(record.user_id, alice_id());
    assert_eq!(record.game_date, GameDate { seconds: 1_704_067_200, nanos: 0 });
    assert_eq!(record.failed, 2);
    assert_eq!(record.difficulty, Difficulty::Hard);
    assert_eq!(record.completed, 8);
    assert_eq!(record.time_taken, 300);
}

#[test]
fn save_reply_reports_success_or_the_cause() {
    let Json(body) = save_reply(Ok(())).expect("the store wrote");
    assert_eq!(body.message(), "Game data saved successfully");
    let error = save_reply(Err(String::from("timeout"))).expect_err("the store failed");
    assert_eq!(error.status_code(), 500);
    assert_eq!(error.message(), "Error during IO operation");
}
