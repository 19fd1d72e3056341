use dormtk::error::{ApiError, ApiErrorKind};
use dormtk::model::{
    AccommodationStatus, BuildingGenderPolicy, InspectionEvidenceSource, InspectionResult,
    ScopeType, StudentDutyType, TaskStatus, UserStatus,
};

#[test]
fn names_round_trip() {
    for v in [TaskStatus::Draft, TaskStatus::Published, TaskStatus::Processing, TaskStatus::Completed, TaskStatus::Cancelled] {
        assert_eq!(TaskStatus::parse(v.as_str()), Some(v));
    }
    for v in [ScopeType::Building, ScopeType::Floor, ScopeType::Room, ScopeType::Class, ScopeType::Student] {
        assert_eq!(ScopeType::parse(v.as_str()), Some(v));
    }
    assert_eq!(StudentDutyType::InspectionExecutor.as_str(), "inspection_executor");
    assert_eq!(AccommodationStatus::CheckedOut.as_str(), "checked_out");
    assert_eq!(BuildingGenderPolicy::parse("female_only"), Some(BuildingGenderPolicy::FemaleOnly));
    assert_eq!(InspectionEvidenceSource::parse("inspection_room_completed"), Some(InspectionEvidenceSource::InspectionRoomCompleted));
    assert_eq!(InspectionResult::parse("unknown"), Some(InspectionResult::Unknown));
    assert_eq!(UserStatus::parse("Active"), None);
    assert_eq!(UserStatus::parse(""), None);
}

#[test]
fn error_kinds_have_status_and_code() {
    let cases = [
        (ApiError::bad_request("m"), 400, "bad_request"),
        (ApiError::unauthorized("m"), 401, "unauthorized"),
        (ApiError::not_found("m"), 404, "not_found"),
        (ApiError::conflict("m"), 409, "conflict"),
        (ApiError::internal("m"), 500, "internal_error"),
        (ApiError::service_unavailable("m"), 503, "service_unavailable"),
        (ApiError::not_implemented("m"), 501, "not_implemented"),
    ];
    for (e, status, code) in cases {
        assert_eq!(e.status(), status);
        assert_eq!(e.code(), code);
        assert_eq!(e.message, "m");
    }
    assert_eq!(ApiErrorKind::Internal.code(), "internal_error");
}
