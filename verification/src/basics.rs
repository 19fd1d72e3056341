//! Base data rules: students, rooms and accommodations must agree on class
//! and gender, buildings restrict room genders, rooms have a capacity.
use crate::error::{error_is, ApiError, ApiErrorKind};
use crate::model::{BuildingGenderPolicy, DormRoomStatus, Gender, StudentStatus};
use crate::text::{is_blank_seq, str_eq};
use crate::validation::{empty_field_error, validate_non_empty};
use vstd::prelude::*;

verus! {

/// A request to create or update a student.
#[derive(Clone, Debug)]
pub struct StudentUpsert {
    pub student_no: String,
    pub name: String,
    pub gender: Gender,
    pub phone: Option<String>,
    pub class_id: String,
    pub college: Option<String>,
    pub major: Option<String>,
    pub status: Option<StudentStatus>,
}

/// A request to create or update a room.
#[derive(Clone, Debug)]
pub struct RoomUpsert {
    pub building_id: String,
    pub class_id: String,
    pub gender: Gender,
    pub room_no: String,
    pub floor: Option<i32>,
    pub capacity: u32,
    pub status: Option<DormRoomStatus>,
}

/// What an accommodation is checked against: the student's status, class
/// and gender and whether they already live somewhere, the room's status,
/// class, gender and capacity, its building's status, and how many active
/// accommodations the room has.
#[derive(Clone, Debug)]
pub struct AccommodationFacts {
    pub student_status: StudentStatus,
    pub has_active_accommodation: bool,
    pub room_status: DormRoomStatus,
    pub building_status: DormRoomStatus,
    pub student_class_id: String,
    pub room_class_id: String,
    pub student_gender: Gender,
    pub room_gender: Gender,
    pub capacity: i32,
    pub active_count: i64,
}

/// Checks the text fields of a student: number and name are not blank.
pub fn validate_student_fields(payload: &StudentUpsert) -> (r: Result<(), ApiError>)
    ensures
        match r {
            Ok(()) => !is_blank_seq(payload.student_no@) && !is_blank_seq(payload.name@),
            Err(e) => if is_blank_seq(payload.student_no@) {
                empty_field_error(e, "student_no"@)
            } else {
                is_blank_seq(payload.name@) && empty_field_error(e, "name"@)
            },
        },
{
    match validate_non_empty(payload.student_no.as_str(), "student_no") {
        Ok(()) => {},
        Err(e) => return Err(e),
    }
    validate_non_empty(payload.name.as_str(), "name")
}

/// A student's gender must be the gender of their class.
pub fn check_student_gender(class_gender: Gender, student_gender: Gender) -> (r: Result<
    (),
    ApiError,
>)
    ensures
        match r {
            Ok(()) => class_gender == student_gender,
            Err(e) => class_gender != student_gender && error_is(
                e,
                ApiErrorKind::BadRequest,
                "student gender must match class gender"@,
            ),
        },
{
    if class_gender != student_gender {
        return Err(ApiError::bad_request("student gender must match class gender"));
    }
    Ok(())
}

/// Checks the fields of a room: a room number that is not blank and a
/// capacity above zero.
pub fn validate_room_fields(payload: &RoomUpsert) -> (r: Result<(), ApiError>)
    ensures
        match r {
            Ok(()) => !is_blank_seq(payload.room_no@) && payload.capacity > 0,
            Err(e) => if is_blank_seq(payload.room_no@) {
                empty_field_error(e, "room_no"@)
            } else {
                payload.capacity == 0 && error_is(
                    e,
                    ApiErrorKind::BadRequest,
                    "capacity must be greater than zero"@,
                )
            },
        },
{
    match validate_non_empty(payload.room_no.as_str(), "room_no") {
        Ok(()) => {},
        Err(e) => return Err(e),
    }
    if payload.capacity == 0 {
        return Err(ApiError::bad_request("capacity must be greater than zero"));
    }
    Ok(())
}

/// A room's gender must be the gender of the class it belongs to.
pub fn check_room_class_gender(class_gender: Gender, room_gender: Gender) -> (r: Result<
    (),
    ApiError,
>)
    ensures
        match r {
            Ok(()) => class_gender == room_gender,
            Err(e) => class_gender != room_gender && error_is(
                e,
                ApiErrorKind::BadRequest,
                "room gender must match class gender"@,
            ),
        },
{
    if class_gender != room_gender {
        return Err(ApiError::bad_request("room gender must match class gender"));
    }
    Ok(())
}

/// A building admits rooms of `gender`: single-gender buildings only their
/// own gender, mixed buildings both.
pub open spec fn policy_admits(policy: BuildingGenderPolicy, gender: Gender) -> bool {
    match policy {
        BuildingGenderPolicy::MaleOnly => gender == Gender::Male,
        BuildingGenderPolicy::FemaleOnly => gender == Gender::Female,
        BuildingGenderPolicy::Mixed => true,
    }
}

/// `r` answers whether a building of policy `policy` admits a room of
/// `gender`: Ok when `policy_admits`, otherwise the refusal naming the
/// building's restriction.
pub open spec fn is_policy_verdict(
    policy: BuildingGenderPolicy,
    gender: Gender,
    r: Result<(), ApiError>,
) -> bool {
    match r {
        Ok(()) => policy_admits(policy, gender),
        Err(e) => !policy_admits(policy, gender) && if policy == BuildingGenderPolicy::MaleOnly {
            error_is(e, ApiErrorKind::BadRequest, "male-only building cannot contain female room"@)
        } else {
            error_is(e, ApiErrorKind::BadRequest, "female-only building cannot contain male room"@)
        },
    }
}

/// A room's gender must be one its building admits.
pub fn check_room_building_policy(policy: BuildingGenderPolicy, room_gender: Gender) -> (r: Result<
    (),
    ApiError,
>)
    ensures
        is_policy_verdict(policy, room_gender, r),
        r is Ok <==> (policy == BuildingGenderPolicy::Mixed || (policy
            == BuildingGenderPolicy::MaleOnly && room_gender == Gender::Male) || (policy
            == BuildingGenderPolicy::FemaleOnly && room_gender == Gender::Female)),
{
    if policy == BuildingGenderPolicy::MaleOnly && room_gender != Gender::Male {
        return Err(ApiError::bad_request("male-only building cannot contain female room"));
    }
    if policy == BuildingGenderPolicy::FemaleOnly && room_gender != Gender::Female {
        return Err(ApiError::bad_request("female-only building cannot contain male room"));
    }
    Ok(())
}

/// A student who has left or is suspended cannot take up a new accommodation.
pub open spec fn student_may_move_in(status: StudentStatus) -> bool {
    status != StudentStatus::Left && status != StudentStatus::Suspended
}

/// The accommodation facts satisfy every rule: a student who has neither
/// left nor been suspended, without an active accommodation, an active room in an active building, of the
/// student's class and gender, that is not full.
pub open spec fn accommodation_allowed(f: AccommodationFacts) -> bool {
    &&& student_may_move_in(f.student_status)
    &&& !f.has_active_accommodation
    &&& f.room_status == DormRoomStatus::Active
    &&& f.building_status == DormRoomStatus::Active
    &&& f.student_class_id@ == f.room_class_id@
    &&& f.student_gender == f.room_gender
    &&& f.active_count < f.capacity
}

/// `r` is the answer to moving in with facts `f`: Ok when
/// `accommodation_allowed`, otherwise the first rule that fails, with its
/// message.
pub open spec fn is_accommodation_verdict(f: AccommodationFacts, r: Result<(), ApiError>) -> bool {
    match r {
        Ok(()) => accommodation_allowed(f),
        Err(e) => !accommodation_allowed(f) && if !student_may_move_in(
            f.student_status,
        ) {
            error_is(
                e,
                ApiErrorKind::BadRequest,
                "students who left or are suspended cannot be accommodated"@,
            )
        } else if f.has_active_accommodation {
            error_is(e, ApiErrorKind::Conflict, "student already has an active accommodation"@)
        } else if f.room_status != DormRoomStatus::Active {
            error_is(e, ApiErrorKind::BadRequest, "disabled room cannot be assigned"@)
        } else if f.building_status != DormRoomStatus::Active {
            error_is(
                e,
                ApiErrorKind::BadRequest,
                "rooms of a disabled building cannot be assigned"@,
            )
        } else if f.student_class_id@ != f.room_class_id@ {
            error_is(
                e,
                ApiErrorKind::BadRequest,
                "student cannot be assigned to a room outside their class"@,
            )
        } else if f.student_gender != f.room_gender {
            error_is(e, ApiErrorKind::BadRequest, "student gender must match room gender"@)
        } else {
            error_is(e, ApiErrorKind::Conflict, "room capacity is full"@)
        },
    }
}

/// A student may move into a room when `accommodation_allowed` holds; the
/// rules are checked in its order and the first that fails is reported.
pub fn validate_accommodation(facts: &AccommodationFacts) -> (r: Result<(), ApiError>)
    ensures
        is_accommodation_verdict(*facts, r),
        r is Ok ==> facts.active_count < facts.capacity,
        facts.student_status != StudentStatus::Left && facts.student_status
            != StudentStatus::Suspended && !facts.has_active_accommodation && facts.room_status
            == DormRoomStatus::Active && facts.building_status == DormRoomStatus::Active
            && facts.student_class_id@ == facts.room_class_id@ && facts.student_gender
            == facts.room_gender ==> (r is Ok <==> facts.active_count < facts.capacity),
{
    if facts.student_status == StudentStatus::Left || facts.student_status
        == StudentStatus::Suspended {
        return Err(ApiError::bad_request("students who left or are suspended cannot be accommodated"));
    }
    if facts.has_active_accommodation {
        return Err(ApiError::conflict("student already has an active accommodation"));
    }
    if facts.room_status != DormRoomStatus::Active {
        return Err(ApiError::bad_request("disabled room cannot be assigned"));
    }
    if facts.building_status != DormRoomStatus::Active {
        return Err(ApiError::bad_request("rooms of a disabled building cannot be assigned"));
    }
    if !str_eq(facts.student_class_id.as_str(), facts.room_class_id.as_str()) {
        return Err(ApiError::bad_request("student cannot be assigned to a room outside their class"));
    }
    if facts.student_gender != facts.room_gender {
        return Err(ApiError::bad_request("student gender must match room gender"));
    }
    if facts.active_count >= facts.capacity as i64 {
        return Err(ApiError::conflict("room capacity is full"));
    }
    Ok(())
}

/// A building admits a room exactly when its policy is mixed or the room's
/// gender is the one the building is reserved for: a male-only building
/// takes male rooms, a female-only building female rooms, a mixed building
/// either; every other pair is refused.
pub proof fn lemma_building_admits_its_gender(
    policy: BuildingGenderPolicy,
    gender: Gender,
    r: Result<(), ApiError>,
)
    requires
        is_policy_verdict(policy, gender, r),
    ensures
        policy == BuildingGenderPolicy::Mixed ==> r is Ok,
        policy == BuildingGenderPolicy::MaleOnly ==> (r is Ok <==> gender == Gender::Male),
        policy == BuildingGenderPolicy::FemaleOnly ==> (r is Ok <==> gender == Gender::Female),
{
}

/// Capacity is the only bound on a room's occupants: when every other rule
/// holds, moving in is refused as full exactly when the room's active
/// accommodations have reached its capacity, and accepted for any number
/// of occupants below it.
pub proof fn lemma_only_capacity_limits_occupants(f: AccommodationFacts, r: Result<(), ApiError>)
    requires
        is_accommodation_verdict(f, r),
        f.student_status != StudentStatus::Left,
        f.student_status != StudentStatus::Suspended,
        !f.has_active_accommodation,
        f.room_status == DormRoomStatus::Active,
        f.building_status == DormRoomStatus::Active,
        f.student_class_id@ == f.room_class_id@,
        f.student_gender == f.room_gender,
    ensures
        f.active_count < f.capacity ==> r is Ok,
        f.active_count >= f.capacity ==> (r matches Err(e) && e.kind == ApiErrorKind::Conflict
            && e.message@ == "room capacity is full"@),
{
}

/// Moving in is accepted exactly when every rule holds: the student has
/// neither left nor been suspended and has no active accommodation, the
/// room and its building are active, student and room share class and
/// gender, and the room is below its capacity.
pub proof fn lemma_accommodation_needs_every_rule(f: AccommodationFacts, r: Result<(), ApiError>)
    requires
        is_accommodation_verdict(f, r),
    ensures
        r is Ok <==> {
            &&& f.student_status != StudentStatus::Left
            &&& f.student_status != StudentStatus::Suspended
            &&& !f.has_active_accommodation
            &&& f.room_status == DormRoomStatus::Active
            &&& f.building_status == DormRoomStatus::Active
            &&& f.student_class_id@ == f.room_class_id@
            &&& f.student_gender == f.room_gender
            &&& f.active_count < f.capacity
        },
{
}

/// When the student agrees with their class, the room agrees with its
/// class, and the student is accommodated in the room, then student, class
/// and room all have one gender, and the room is in a building that admits it.
pub proof fn lemma_genders_agree(
    student_gender: Gender,
    class_gender: Gender,
    room_gender: Gender,
    policy: BuildingGenderPolicy,
)
    requires
        class_gender == student_gender,
        class_gender == room_gender,
        policy_admits(policy, room_gender),
    ensures
        student_gender == room_gender,
        policy_admits(policy, student_gender),
{
}

} // verus!
