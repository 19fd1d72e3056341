use dormtk::access::{check_login_status, check_password, reserve_import_job, role_claim};
use dormtk::basics::{
    check_room_building_policy, check_room_class_gender, check_student_gender,
    validate_accommodation, validate_room_fields, validate_student_fields, AccommodationFacts,
    RoomUpsert, StudentUpsert,
};
use dormtk::duties::{
    check_given_duty, finish_duty_search, plan_task_duty, required_executor_duty,
    validate_duty_update, validate_student_duty, StudentDutyAssignmentCreate,
    StudentDutyAssignmentUpdate, TaskAssignmentCreate, TaskDutyPlan,
};
use dormtk::error::ApiErrorKind;
use dormtk::model::{
    AssigneeType, BuildingGenderPolicy, DormRoomStatus, DutyAssignmentStatus, DutyScopeType,
    Gender, StudentDutyType, StudentStatus, TaskType, UserStatus,
};

fn student(no: &str, name: &str) -> StudentUpsert {
    StudentUpsert {
        student_no: no.to_owned(),
        name: name.to_owned(),
        gender: Gender::Female,
        phone: None,
        class_id: "c1".to_owned(),
        college: None,
        major: None,
        status: None,
    }
}

fn room(no: &str, capacity: u32) -> RoomUpsert {
    RoomUpsert {
        building_id: "b1".to_owned(),
        class_id: "c1".to_owned(),
        gender: Gender::Male,
        room_no: no.to_owned(),
        floor: Some(3),
        capacity,
        status: None,
    }
}

fn facts(student_class: &str, room_class: &str, sg: Gender, rg: Gender, cap: i32, active: i64) -> AccommodationFacts {
    AccommodationFacts {
        student_status: StudentStatus::Active,
        has_active_accommodation: false,
        room_status: DormRoomStatus::Active,
        building_status: DormRoomStatus::Active,
        student_class_id: student_class.to_owned(),
        room_class_id: room_class.to_owned(),
        student_gender: sg,
        room_gender: rg,
        capacity: cap,
        active_count: active,
    }
}

#[test]
fn student_fields_must_not_be_blank() {
    assert!(validate_student_fields(&student("2024001", "Li")).is_ok());
    assert_eq!(validate_student_fields(&student(" ", "Li")).unwrap_err().message, "student_no must not be empty");
    assert_eq!(validate_student_fields(&student("1", "")).unwrap_err().message, "name must not be empty");
}

#[test]
fn student_gender_must_match_class() {
    assert!(check_student_gender(Gender::Male, Gender::Male).is_ok());
    let e = check_student_gender(Gender::Male, Gender::Female).unwrap_err();
    assert_eq!(e.message, "student gender must match class gender");
}

#[test]
fn room_fields_and_genders() {
    assert!(validate_room_fields(&room("101", 4)).is_ok());
    assert_eq!(validate_room_fields(&room("", 4)).unwrap_err().message, "room_no must not be empty");
    assert_eq!(validate_room_fields(&room("101", 0)).unwrap_err().message, "capacity must be greater than zero");
    assert!(check_room_class_gender(Gender::Female, Gender::Female).is_ok());
    assert_eq!(
        check_room_class_gender(Gender::Female, Gender::Male).unwrap_err().message,
        "room gender must match class gender"
    );
}

#[test]
fn building_policy_limits_room_gender() {
    assert!(check_room_building_policy(BuildingGenderPolicy::MaleOnly, Gender::Male).is_ok());
    assert!(check_room_building_policy(BuildingGenderPolicy::Mixed, Gender::Female).is_ok());
    assert!(check_room_building_policy(BuildingGenderPolicy::Mixed, Gender::Male).is_ok());
    assert_eq!(
        check_room_building_policy(BuildingGenderPolicy::MaleOnly, Gender::Female).unwrap_err().message,
        "male-only building cannot contain female room"
    );
    assert_eq!(
        check_room_building_policy(BuildingGenderPolicy::FemaleOnly, Gender::Male).unwrap_err().message,
        "female-only building cannot contain male room"
    );
}

#[test]
fn accommodation_needs_same_class_gender_and_room() {
    assert!(validate_accommodation(&facts("c1", "c1", Gender::Male, Gender::Male, 4, 3)).is_ok());
    assert_eq!(
        validate_accommodation(&facts("c1", "c2", Gender::Male, Gender::Male, 4, 0)).unwrap_err().message,
        "student cannot be assigned to a room outside their class"
    );
    assert_eq!(
        validate_accommodation(&facts("c1", "c1", Gender::Male, Gender::Female, 4, 0)).unwrap_err().message,
        "student gender must match room gender"
    );
    let e = validate_accommodation(&facts("c1", "c1", Gender::Male, Gender::Male, 4, 4)).unwrap_err();
    assert_eq!(e.kind, ApiErrorKind::Conflict);
    assert_eq!(e.status(), 409);
    assert_eq!(e.message, "room capacity is full");
}

#[test]
fn accommodation_needs_active_student_room_and_building() {
    let mut f = facts("c1", "c1", Gender::Male, Gender::Male, 4, 0);
    f.student_status = StudentStatus::Left;
    let e = validate_accommodation(&f).unwrap_err();
    assert_eq!((e.kind, e.message.as_str()), (ApiErrorKind::BadRequest, "students who left or are suspended cannot be accommodated"));
    f.student_status = StudentStatus::Suspended;
    assert!(validate_accommodation(&f).is_err());
    f.student_status = StudentStatus::Graduated;
    assert!(validate_accommodation(&f).is_ok());

    let mut f = facts("c1", "c1", Gender::Male, Gender::Male, 4, 0);
    f.has_active_accommodation = true;
    let e = validate_accommodation(&f).unwrap_err();
    assert_eq!((e.kind, e.message.as_str()), (ApiErrorKind::Conflict, "student already has an active accommodation"));

    let mut f = facts("c1", "c1", Gender::Male, Gender::Male, 4, 0);
    f.room_status = DormRoomStatus::Disabled;
    assert_eq!(validate_accommodation(&f).unwrap_err().message, "disabled room cannot be assigned");

    let mut f = facts("c1", "c1", Gender::Male, Gender::Male, 4, 0);
    f.building_status = DormRoomStatus::Disabled;
    assert_eq!(
        validate_accommodation(&f).unwrap_err().message,
        "rooms of a disabled building cannot be assigned"
    );
}

#[test]
fn duty_scopes_are_checked() {
    let mut duty = StudentDutyAssignmentCreate {
        student_id: "s1".to_owned(),
        duty_type: StudentDutyType::ClassMonitor,
        scope_type: DutyScopeType::Class,
        scope_ids: vec!["c1".to_owned()],
    };
    assert!(validate_student_duty(&duty).is_ok());
    duty.scope_type = DutyScopeType::Room;
    assert_eq!(validate_student_duty(&duty).unwrap_err().message, "class monitor duty must use class scope");
    duty.duty_type = StudentDutyType::InspectionExecutor;
    assert!(validate_student_duty(&duty).is_ok());
    duty.scope_ids.clear();
    assert_eq!(validate_student_duty(&duty).unwrap_err().message, "scope_ids must not be empty");

    assert!(validate_duty_update(&StudentDutyAssignmentUpdate { scope_ids: None, status: None }).is_ok());
    assert!(validate_duty_update(&StudentDutyAssignmentUpdate { scope_ids: Some(vec![]), status: None }).is_err());
}

#[test]
fn task_duties_follow_task_type_and_assignee() {
    assert_eq!(required_executor_duty(TaskType::Inspection), StudentDutyType::InspectionExecutor);
    assert_eq!(required_executor_duty(TaskType::Hygiene), StudentDutyType::HygieneExecutor);

    let mut payload = TaskAssignmentCreate {
        task_type: TaskType::Hygiene,
        task_id: "t1".to_owned(),
        assignee_id: "u1".to_owned(),
        assignee_type: AssigneeType::Teacher,
        duty_assignment_id: Some("d1".to_owned()),
    };
    assert!(matches!(plan_task_duty(&payload), TaskDutyPlan::NoDuty));
    payload.assignee_type = AssigneeType::Student;
    assert!(matches!(
        plan_task_duty(&payload),
        TaskDutyPlan::CheckGiven { ref duty_assignment_id, required_duty: StudentDutyType::HygieneExecutor }
            if duty_assignment_id == "d1"
    ));
    payload.duty_assignment_id = None;
    assert!(matches!(
        plan_task_duty(&payload),
        TaskDutyPlan::FindActive { required_duty: StudentDutyType::HygieneExecutor }
    ));

    assert_eq!(
        check_given_duty("d1".to_owned(), StudentDutyType::InspectionExecutor, StudentDutyType::InspectionExecutor, DutyAssignmentStatus::Active).unwrap(),
        Some("d1".to_owned())
    );
    assert_eq!(
        check_given_duty("d1".to_owned(), StudentDutyType::InspectionExecutor, StudentDutyType::ClassMonitor, DutyAssignmentStatus::Active).unwrap_err().message,
        "student task assignee must have an active matching executor duty"
    );
    assert!(check_given_duty("d1".to_owned(), StudentDutyType::InspectionExecutor, StudentDutyType::InspectionExecutor, DutyAssignmentStatus::Disabled).is_err());
    assert_eq!(finish_duty_search(Some("d2".to_owned())).unwrap(), Some("d2".to_owned()));
    assert_eq!(
        finish_duty_search(None).unwrap_err().message,
        "student task assignee must have an active executor duty"
    );
}

#[test]
fn login_rules() {
    assert!(check_login_status(Some(UserStatus::Active)).is_ok());
    assert_eq!(check_login_status(Some(UserStatus::Disabled)).unwrap_err().message, "user is disabled");
    assert_eq!(check_login_status(None).unwrap_err().message, "invalid username or password");
    assert!(check_password(true).is_ok());
    assert_eq!(check_password(false).unwrap_err().message, "invalid username or password");
    assert_eq!(role_claim(&vec!["admin".to_owned(), "teacher".to_owned()]), "admin");
    assert_eq!(role_claim(&vec![]), "user");
    let e = reserve_import_job().unwrap_err();
    assert_eq!(e.status(), 501);
    assert_eq!(e.message, "basic data import is reserved for a later phase");
}
