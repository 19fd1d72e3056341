use dormtk::error::{ApiError, ApiErrorKind};
use dormtk::inspection::{
    check_completable, check_publishable, check_qr_issuable, check_scan_target,
    check_token_usable, covered_by_leave_error, decide_qr_issue, decide_scan, decide_submitted_scan,
    ensure_executor_can_access_room, ensure_inspection_executor, executor_can_access_room,
    token_status_after, tokens_to_revoke, QrTokenState,
    insert_records_sql, leave_to_apply, missing_qr_token_error, qr_token_ttl_text,
    record_select_sql, require_execution_assignment, scoped_select_sql, validate_task_create,
    DormInspectionTaskCreate, LeaveWindow, QrIssueDecision, QrIssueFacts, RoomPlacement,
    ScanDecision, ScanFacts, StudentDutyAssignment, BUILDING_SCOPE_SQL, CLASS_SCOPE_SQL,
    INSERT_RECORDS_HEAD, INSERT_RECORDS_TAIL, RECORD_SELECT_HEAD, ROOM_SCOPE_SQL,
    SQL_TAIL_END, STUDENT_SCOPE_SQL,
};
use dormtk::model::{
    DutyAssignmentStatus, DutyScopeType, InspectionMethod, InspectionQrTokenStatus,
    InspectionResult, LeaveStatus,
    ScopeType, StudentDutyType, TaskStatus,
};

fn message(r: Result<(), ApiError>) -> String {
    r.unwrap_err().message
}

#[test]
fn task_creation_requires_title_and_scope() {
    let mut payload = DormInspectionTaskCreate {
        title: "Night check".to_owned(),
        scope_type: ScopeType::Building,
        scope_ids: vec!["b1".to_owned()],
        scheduled_at: "2024-09-01T22:00:00Z".to_owned(),
        method: InspectionMethod::QrCode,
    };
    assert!(validate_task_create(&payload).is_ok());
    payload.scope_ids.clear();
    assert_eq!(message(validate_task_create(&payload)), "scope_ids must not be empty");
    payload.title = "  ".to_owned();
    assert_eq!(message(validate_task_create(&payload)), "title must not be empty");
}

#[test]
fn publishing_and_completing_tasks() {
    assert!(check_publishable(TaskStatus::Draft, ScopeType::Room).is_ok());
    assert!(check_publishable(TaskStatus::Published, ScopeType::Student).is_ok());
    assert_eq!(
        message(check_publishable(TaskStatus::Completed, ScopeType::Room)),
        "completed or cancelled task cannot be published"
    );
    assert_eq!(
        message(check_publishable(TaskStatus::Cancelled, ScopeType::Floor)),
        "completed or cancelled task cannot be published"
    );
    assert_eq!(
        message(check_publishable(TaskStatus::Draft, ScopeType::Floor)),
        "floor scope is not implemented in P3 because there is no floor entity"
    );
    assert!(check_completable(0).is_ok());
    assert_eq!(message(check_completable(3)), "inspection task still has unknown records");
}

#[test]
fn sql_text_is_assembled_from_its_parts() {
    let tail = "WHERE id = $1::uuid";
    assert_eq!(record_select_sql(tail), format!("{RECORD_SELECT_HEAD}{tail}{SQL_TAIL_END}"));
    assert_eq!(scoped_select_sql(ScopeType::Building).unwrap(), BUILDING_SCOPE_SQL);
    assert_eq!(scoped_select_sql(ScopeType::Room).unwrap(), ROOM_SCOPE_SQL);
    assert_eq!(scoped_select_sql(ScopeType::Class).unwrap(), CLASS_SCOPE_SQL);
    assert_eq!(scoped_select_sql(ScopeType::Student).unwrap(), STUDENT_SCOPE_SQL);
    assert_eq!(
        scoped_select_sql(ScopeType::Floor).unwrap_err().message,
        "floor scope is not implemented in P3"
    );
    assert_eq!(
        insert_records_sql(ROOM_SCOPE_SQL),
        format!("{INSERT_RECORDS_HEAD}{ROOM_SCOPE_SQL}{INSERT_RECORDS_TAIL}")
    );
    assert!(record_select_sql("").contains("FROM dorm_inspection_records"));
    assert_eq!(qr_token_ttl_text(), "5");
}

#[test]
fn qr_tokens_are_issued_only_for_open_records() {
    let room = Some("r1".to_owned());
    assert!(check_qr_issuable(InspectionResult::Unknown, TaskStatus::Published, "r1", &room).is_ok());
    assert!(check_qr_issuable(InspectionResult::Unknown, TaskStatus::Processing, "r1", &room).is_ok());
    assert_eq!(
        message(check_qr_issuable(InspectionResult::Present, TaskStatus::Published, "r1", &room)),
        "only unknown inspection records can issue QR tokens"
    );
    assert_eq!(
        message(check_qr_issuable(InspectionResult::Unknown, TaskStatus::Draft, "r1", &room)),
        "inspection task is not available for QR token issuing"
    );
    assert_eq!(
        message(check_qr_issuable(InspectionResult::Unknown, TaskStatus::Published, "r1", &None)),
        "student has no active accommodation"
    );
    assert_eq!(
        message(check_qr_issuable(InspectionResult::Unknown, TaskStatus::Published, "r2", &room)),
        "active accommodation room does not match inspection record"
    );
    assert_eq!(
        covered_by_leave_error(&Some("l9".to_owned())).message,
        "inspection record is covered by approved leave: l9"
    );
    assert_eq!(
        covered_by_leave_error(&None).message,
        "inspection record is covered by approved leave: "
    );
    assert_eq!(missing_qr_token_error().message, "QR token does not exist");
}

#[test]
fn scanned_tokens_and_targets_are_checked() {
    assert!(check_token_usable("active", false).is_ok());
    assert_eq!(message(check_token_usable("used", false)), "QR token is not active");
    assert_eq!(message(check_token_usable("active", true)), "QR token is expired");
    let room = Some("r1".to_owned());
    assert!(check_scan_target(TaskStatus::Processing, InspectionResult::Unknown, &room, "r1").is_ok());
    assert_eq!(
        message(check_scan_target(TaskStatus::Completed, InspectionResult::Unknown, &room, "r1")),
        "inspection task is not executable"
    );
    assert_eq!(
        message(check_scan_target(TaskStatus::Published, InspectionResult::Leave, &room, "r1")),
        "inspection record is no longer unknown"
    );
    assert_eq!(
        message(check_scan_target(TaskStatus::Published, InspectionResult::Unknown, &None, "r1")),
        "student active accommodation does not match QR room"
    );
}

fn duty(duty_type: StudentDutyType, scope_type: DutyScopeType, ids: &[&str], status: DutyAssignmentStatus) -> StudentDutyAssignment {
    StudentDutyAssignment {
        id: "d".to_owned(),
        student_id: "s".to_owned(),
        duty_type,
        scope_type,
        scope_ids: ids.iter().map(|i| i.to_string()).collect(),
        assigned_by: None,
        status,
    }
}

fn placement(room: &str, class: Option<&str>, building: Option<&str>) -> RoomPlacement {
    RoomPlacement {
        room_id: room.to_owned(),
        class_id: class.map(str::to_owned),
        building_id: building.map(str::to_owned),
    }
}

#[test]
fn executors_reach_rooms_through_their_scopes() {
    let r = placement("r1", Some("c1"), Some("b1"));
    assert!(executor_can_access_room(&vec![duty(StudentDutyType::InspectionExecutor, DutyScopeType::Room, &["r1"], DutyAssignmentStatus::Active)], &r));
    assert!(executor_can_access_room(&vec![duty(StudentDutyType::InspectionExecutor, DutyScopeType::Class, &["c0", "c1"], DutyAssignmentStatus::Active)], &r));
    assert!(executor_can_access_room(&vec![duty(StudentDutyType::InspectionExecutor, DutyScopeType::Building, &["b1"], DutyAssignmentStatus::Active)], &r));
    assert!(executor_can_access_room(&vec![duty(StudentDutyType::InspectionExecutor, DutyScopeType::Task, &[], DutyAssignmentStatus::Active)], &r));
    assert!(!executor_can_access_room(&vec![duty(StudentDutyType::InspectionExecutor, DutyScopeType::Room, &["r2"], DutyAssignmentStatus::Active)], &r));
    assert!(!executor_can_access_room(&vec![duty(StudentDutyType::InspectionExecutor, DutyScopeType::Room, &["r1"], DutyAssignmentStatus::Disabled)], &r));
    assert!(!executor_can_access_room(&vec![duty(StudentDutyType::HygieneExecutor, DutyScopeType::Room, &["r1"], DutyAssignmentStatus::Active)], &r));
    assert!(!executor_can_access_room(&vec![duty(StudentDutyType::InspectionExecutor, DutyScopeType::Class, &["c1"], DutyAssignmentStatus::Active)], &placement("r9", None, None)));
    assert!(ensure_executor_can_access_room(&vec![duty(StudentDutyType::InspectionExecutor, DutyScopeType::Task, &[], DutyAssignmentStatus::Active)], &r).is_ok());
    assert_eq!(
        message(ensure_executor_can_access_room(&vec![], &r)),
        "student executor cannot access this room"
    );
    assert!(ensure_inspection_executor(&vec![duty(StudentDutyType::InspectionExecutor, DutyScopeType::Task, &[], DutyAssignmentStatus::Active)]).is_ok());
    let e = ensure_inspection_executor(&vec![duty(StudentDutyType::ClassMonitor, DutyScopeType::Class, &["c1"], DutyAssignmentStatus::Active)]).unwrap_err();
    assert_eq!(e.kind, ApiErrorKind::Unauthorized);
    assert_eq!(e.message, "student does not have active inspection executor duty");
    assert_eq!(require_execution_assignment(Some("a1".to_owned())).unwrap(), "a1");
    assert_eq!(
        require_execution_assignment(None).unwrap_err().message,
        "student is not assigned to this inspection task"
    );
}

fn leave(id: &str, status: LeaveStatus, starts: i64, ends: i64, submitted: i64) -> LeaveWindow {
    LeaveWindow { id: id.to_owned(), status, starts_at: starts, ends_at: ends, submitted_at: submitted }
}

#[test]
fn latest_approved_covering_leave_applies() {
    let leaves = vec![
        leave("old", LeaveStatus::Approved, 0, 100, 5),
        leave("pending", LeaveStatus::Pending, 0, 100, 50),
        leave("new", LeaveStatus::Approved, 40, 60, 9),
        leave("outside", LeaveStatus::Approved, 70, 80, 99),
    ];
    assert_eq!(leave_to_apply(InspectionResult::Unknown, &leaves, 50), Some("new".to_owned()));
    assert_eq!(leave_to_apply(InspectionResult::Unknown, &leaves, 10), Some("old".to_owned()));
    assert_eq!(leave_to_apply(InspectionResult::Unknown, &leaves, 100), Some("old".to_owned()));
    assert_eq!(leave_to_apply(InspectionResult::Unknown, &leaves, 101), None);
    assert_eq!(leave_to_apply(InspectionResult::Abnormal, &leaves, 50), None);
    assert_eq!(leave_to_apply(InspectionResult::Unknown, &vec![], 50), None);
}

#[test]
fn qr_issue_decision_prefers_leave() {
    let mut facts = QrIssueFacts {
        record_result: InspectionResult::Unknown,
        task_status: TaskStatus::Published,
        record_room_id: "r1".to_owned(),
        accommodation_room_id: Some("r1".to_owned()),
        scheduled_at: 50,
        leaves: vec![],
    };
    assert!(matches!(decide_qr_issue(&facts), QrIssueDecision::Issue));
    facts.leaves.push(leave("l1", LeaveStatus::Approved, 0, 100, 1));
    assert!(matches!(decide_qr_issue(&facts), QrIssueDecision::CoveredByLeave(ref id) if id == "l1"));
    facts.task_status = TaskStatus::Completed;
    assert!(matches!(decide_qr_issue(&facts), QrIssueDecision::Refuse(ref e)
        if e.message == "inspection task is not available for QR token issuing"));
}

fn scan_facts() -> ScanFacts {
    ScanFacts {
        token_status: "active".to_owned(),
        expired: false,
        task_status: TaskStatus::Processing,
        record_result: InspectionResult::Unknown,
        qr_room_id: "r1".to_owned(),
        active_room_id: Some("r1".to_owned()),
        executor_duties: vec![duty(StudentDutyType::InspectionExecutor, DutyScopeType::Room, &["r1"], DutyAssignmentStatus::Active)],
        room: placement("r1", Some("c1"), Some("b1")),
        assignment_id: Some("a1".to_owned()),
    }
}

#[test]
fn scan_decision_accepts_only_when_every_check_passes() {
    assert!(matches!(decide_scan(&scan_facts()), ScanDecision::Accept(ref a) if a == "a1"));

    fn rejected(f: &ScanFacts) -> (Option<String>, String, bool) {
        match decide_scan(f) {
            ScanDecision::Reject { assignment_id, reason, mark_expired } => (assignment_id, reason, mark_expired),
            other => panic!("expected a rejection, got {other:?}"),
        }
    }
    let a1 = Some("a1".to_owned());

    let mut f = scan_facts();
    f.expired = true;
    assert_eq!(rejected(&f), (a1.clone(), "QR token is expired".to_owned(), true));
    let mut f = scan_facts();
    f.token_status = "used".to_owned();
    f.expired = true;
    assert_eq!(rejected(&f), (a1.clone(), "QR token is not active".to_owned(), false));
    let mut f = scan_facts();
    f.task_status = TaskStatus::Completed;
    assert_eq!(rejected(&f).1, "inspection task is not executable");
    let mut f = scan_facts();
    f.record_result = InspectionResult::Present;
    assert_eq!(rejected(&f).1, "inspection record is no longer unknown");
    let mut f = scan_facts();
    f.active_room_id = Some("r2".to_owned());
    assert_eq!(rejected(&f).1, "student active accommodation does not match QR room");
    let mut f = scan_facts();
    f.executor_duties.clear();
    assert_eq!(rejected(&f).1, "student does not have active inspection executor duty");
    let mut f = scan_facts();
    f.assignment_id = None;
    assert_eq!(
        rejected(&f),
        (None, "student is not assigned to this inspection task".to_owned(), false)
    );
    f.expired = true;
    assert_eq!(rejected(&f), (None, "QR token is expired".to_owned(), true));
    let mut f = scan_facts();
    f.room = placement("r1", None, None);
    f.executor_duties = vec![duty(StudentDutyType::InspectionExecutor, DutyScopeType::Building, &["b1"], DutyAssignmentStatus::Active)];
    assert_eq!(rejected(&f), (a1, "student executor cannot access this room".to_owned(), false));
}

#[test]
fn a_scan_of_an_unknown_token_is_refused() {
    assert!(matches!(decide_submitted_scan(&None), ScanDecision::Refuse(ref e)
        if e.message == "QR token does not exist" && e.kind == ApiErrorKind::BadRequest));
    assert!(matches!(decide_submitted_scan(&Some(scan_facts())), ScanDecision::Accept(_)));
}

#[test]
fn class_monitor_duties_alone_never_confirm_a_scan() {
    let mut f = scan_facts();
    f.executor_duties = vec![
        duty(StudentDutyType::ClassMonitor, DutyScopeType::Class, &["c1"], DutyAssignmentStatus::Active),
        duty(StudentDutyType::ClassMonitor, DutyScopeType::Task, &["t1"], DutyAssignmentStatus::Active),
    ];
    assert!(ensure_inspection_executor(&f.executor_duties).is_err());
    assert!(!executor_can_access_room(&f.executor_duties, &f.room));
    assert!(matches!(decide_scan(&f), ScanDecision::Reject { mark_expired: false, .. }));
}

#[test]
fn a_token_is_used_after_one_accepted_scan_and_never_accepted_again() {
    let f = scan_facts();
    let first = decide_scan(&f);
    assert!(matches!(first, ScanDecision::Accept(_)));
    let status = token_status_after(&first, &f.token_status);
    assert_eq!(status, "used");

    let mut again = scan_facts();
    again.token_status = status;
    let second = decide_scan(&again);
    assert!(matches!(second, ScanDecision::Reject { mark_expired: false, .. }));
    assert_eq!(token_status_after(&second, &again.token_status), "used");

    let mut expired = scan_facts();
    expired.expired = true;
    let d = decide_scan(&expired);
    assert_eq!(token_status_after(&d, &expired.token_status), "expired");
}

#[test]
fn issuing_revokes_every_active_token_of_the_record() {
    let tokens = vec![
        QrTokenState { id: "t1".to_owned(), status: InspectionQrTokenStatus::Used },
        QrTokenState { id: "t2".to_owned(), status: InspectionQrTokenStatus::Active },
        QrTokenState { id: "t3".to_owned(), status: InspectionQrTokenStatus::Revoked },
        QrTokenState { id: "t4".to_owned(), status: InspectionQrTokenStatus::Active },
    ];
    assert_eq!(tokens_to_revoke(&tokens), vec!["t2".to_owned(), "t4".to_owned()]);
    assert!(tokens_to_revoke(&Vec::new()).is_empty());
}
