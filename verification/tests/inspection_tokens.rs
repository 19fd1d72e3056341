use dormtk::inspection::{
    generate_plain_token, hash_qr_token, inspection_duty_matches_task, token_is_expired,
    verify_qr_token,
};
use dormtk::model::{StudentDutyType, TaskType};

#[test]
fn qr_token_hash_verifies_original_token() {
    let token = "sample-token";
    let hash = hash_qr_token(token);

    assert!(verify_qr_token(token, &hash));
    assert!(!verify_qr_token("other-token", &hash));
}

#[test]
fn generated_qr_token_is_hex_encoded_32_bytes() {
    let token = generate_plain_token().expect("the random source should be available");

    assert_eq!(token.len(), 64);
    assert!(token.chars().all(|ch| ch.is_ascii_hexdigit()));
}

#[test]
fn token_expiration_uses_inclusive_boundary() {
    assert!(!token_is_expired(99, 100));
    assert!(token_is_expired(100, 100));
    assert!(token_is_expired(101, 100));
}

#[test]
fn inspection_duty_matches_only_inspection_task() {
    assert!(inspection_duty_matches_task(
        StudentDutyType::InspectionExecutor,
        TaskType::Inspection
    ));
    assert!(!inspection_duty_matches_task(
        StudentDutyType::HygieneExecutor,
        TaskType::Inspection
    ));
    assert!(!inspection_duty_matches_task(
        StudentDutyType::InspectionExecutor,
        TaskType::Hygiene
    ));
}

#[test]
fn qr_token_hash_is_hex_sha256() {
    assert_eq!(
        hash_qr_token("abc"),
        "ba7816bf8f01cfea414140de5dae2223b00361a396177a9cb410ff61f20015ad"
    );
    assert_eq!(
        hash_qr_token(""),
        "e3b0c44298fc1c149afbf4c8996fb92427ae41e4649b934ca495991b7852b855"
    );
}
