use ddr_score::auth::AuthError;
use ddr_score::error::{ApiError, ApiResult, FAILURE_STATUS};
use ddr_score::reconcile::Failure;

#[test]
fn every_failure_is_a_500() {
    assert_eq!(FAILURE_STATUS, 500);
    assert_eq!(ApiError::new("x".to_string()).status(), 500);
}

#[test]
fn the_body_names_the_reason() {
    let e = ApiError::new("no such table: score".to_string());
    assert_eq!(e.body(), "Something went wrong: no such table: score");
    assert_eq!(ApiError::new(String::new()).body(), "Something went wrong: ");
}

#[test]
fn a_rejected_login_reads_as_before() {
    let e = ApiError::from_auth(AuthError::Rejected);
    assert_eq!(e.message, "User authentication failed");
    assert_eq!(e.body(), "Something went wrong: User authentication failed");
}

#[test]
fn write_failures_have_words() {
    assert_eq!(ApiError::from_failure(Failure::Store).message, "The store reported an error");
    assert_eq!(
        ApiError::from_failure(Failure::MissingScoreId).message,
        "The store returned no score for a chart"
    );
    assert_eq!(
        ApiError::from_failure(Failure::OutOfTurn).message,
        "The request was driven out of turn"
    );
}

#[test]
fn results_carry_the_failure() {
    let r: ApiResult<u8> = Err(ApiError::new("x".to_string()));
    assert_eq!(r.unwrap_err().message, "x");
}

#[test]
fn a_reason_converts_into_a_failure() {
    let e = ApiError::from("disk full".to_string());
    assert_eq!(e.message, "disk full");
    let e: ddr_score::ApiError = "disk full".to_string().into();
    assert_eq!(e.body(), "Something went wrong: disk full");
}

#[test]
fn results_may_carry_another_failure() {
    let r: ApiResult<u8, String> = Err("other".to_string());
    assert_eq!(r.unwrap_err(), "other");
}
