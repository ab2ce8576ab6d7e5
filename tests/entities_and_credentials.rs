use blackboard::credentials::{hash_password, verify_password};
use blackboard::entities::Role;
use blackboard::errors::StoreError;
use blackboard::response::ApiResponse;

#[test]
fn role_tags_round_trip() {
    assert_eq!(Role::Professor.to_string(), "professor");
    assert_eq!(Role::Student.to_string(), "student");
    assert_eq!(Role::from_str("professor"), Ok(Role::Professor));
    assert_eq!(Role::from_str("student"), Ok(Role::Student));
}

#[test]
fn unknown_role_tag_is_an_error() {
    assert_eq!(Role::from_str("admin"), Err(StoreError::UnknownRole));
    assert_eq!(Role::from_str(""), Err(StoreError::UnknownRole));
    assert_eq!(Role::from_str("Student"), Err(StoreError::UnknownRole));
}

#[test]
fn hashed_password_verifies_and_differs_from_plaintext() {
    let digest = hash_password("pw1").unwrap();
    assert_ne!(digest, "pw1");
    assert!(digest.starts_with("$2b$12$"));
    assert_eq!(digest.len(), 60);
    assert_eq!(verify_password("pw1", &digest), Ok(true));
    assert_eq!(verify_password("other", &digest), Ok(false));
}

#[test]
fn malformed_digest_is_a_hashing_error() {
    assert_eq!(verify_password("pw1", "not a digest"), Err(StoreError::Hashing));
    assert_eq!(verify_password("pw1", "pw1"), Err(StoreError::Hashing));
}

#[test]
fn success_and_error_envelopes() {
    let ok: ApiResponse<i64> = ApiResponse::new_success(5);
    assert!(ok.error.is_none());
    assert_eq!(ok.payload, Some(5));
    let err: ApiResponse<i64> = ApiResponse::new_error("boom".to_string());
    assert!(err.payload.is_none());
    let e = err.error.unwrap();
    assert_eq!(e.code, "601");
    assert_eq!(e.msg, "-");
    assert_eq!(e.note, Some("boom".to_string()));
}

#[test]
fn failure_envelope_describes_error() {
    let r: ApiResponse<()> = ApiResponse::from_failure("Failed: ", StoreError::ConstraintViolation);
    assert_eq!(r.error.unwrap().note, Some("Failed: duplicate key".to_string()));
    assert_eq!(StoreError::CommitConflict.describe(), "concurrent commit");
}
